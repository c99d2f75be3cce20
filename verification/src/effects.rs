//! What the operations are for, in terms of their inputs and results alone: of
//! the map of children, of tickets, of exit codes, signals and process numbers.
use crate::child::{ChildAccess, ChildProcess};
use crate::garden::{got_or_inserted, is_free, Change};
use crate::kind::{Kind, Spawned};
use crate::laws::{held_pipes, lemma_finite};
use crate::outside::guards;
use crate::pending::{
    success_change, termination_change, KillRequest, PidQuery, SignalReady, SignalRequest,
    SuccessCheck, TerminationCheck, Waiting,
};
use crate::status::{pid_of, seen_success, seen_terminated, ExitStatus, Signal, SIGTERM};
use crate::ticket::Ticket;
use vstd::prelude::*;

verus! {

/// A put leaves under every number what was there, but for that of its ticket,
/// where the new kind stands.
pub proof fn law_put_touches_one_ticket(
    children: Map<u128, Kind>,
    t: Ticket,
    kind: Kind,
    other: u128,
)
    ensures
        Change::Put(t, kind).apply(children).get(t@) == Some(kind),
        other != t@ ==> Change::Put(t, kind).apply(children).get(other) == children.get(other),
        children.get(t@) is None ==> Change::Put(t, kind).apply(children).dom().len()
            == children.dom().len() + 1,
        children.get(t@) is Some ==> Change::Put(t, kind).apply(children).dom().len()
            == children.dom().len(),
{
    lemma_finite(children);
    assert(Change::Put(t, kind).apply(children).dom() =~= children.dom().insert(t@));
}

/// A removal leaves under every number what was there, but for that of its
/// ticket, where nothing is left.
pub proof fn law_removal_touches_one_ticket(children: Map<u128, Kind>, t: Ticket, other: u128)
    ensures
        Change::Remove(t).apply(children).get(t@) is None,
        other != t@ ==> Change::Remove(t).apply(children).get(other) == children.get(other),
        children.get(t@) is Some ==> Change::Remove(t).apply(children).dom().len()
            == children.dom().len() - 1,
        children.get(t@) is None ==> Change::Remove(t).apply(children).dom().len()
            == children.dom().len(),
{
    lemma_finite(children);
    assert(Change::Remove(t).apply(children).dom() =~= children.dom().remove(t@));
}

/// Keeping changes nothing at all.
pub proof fn law_keep_touches_nothing(children: Map<u128, Kind>)
    ensures
        Change::Keep.apply(children) == children,
{
}

/// A change concerns exactly the tickets with the number that it names.
pub proof fn law_concerned_ticket_is_named(named: Ticket, kind: Kind, t: Ticket)
    ensures
        Change::Put(named, kind).concerns(t) <==> named@ == t@,
        Change::Remove(named).concerns(t) <==> named@ == t@,
        !Change::Keep.concerns(t),
{
}

/// A ticket is free exactly where no child stands under its number.
pub proof fn law_free_ticket_has_no_child(children: Map<u128, Kind>, t: Ticket)
    ensures
        is_free(children, t) <==> !children.dom().contains(t@),
{
}

/// Each child stands for three pipes.
pub proof fn law_three_pipes_for_each_child(children: Map<u128, Kind>)
    ensures
        held_pipes(children) == 3 * children.dom().len(),
{
}

/// To get a child or to start one leaves every other ticket alone. Where a child
/// stands under the ticket, it is what comes back, and nothing changes. Where none
/// does, a child that `f` started stands there afterwards, with three pipes more
/// than before, and it is what comes back; or the error of `f` comes back, and
/// nothing changes.
pub proof fn law_get_or_insert_touches_one_ticket<E, F: FnOnce() -> Result<Spawned, E>>(
    before: Map<u128, Kind>,
    t: Ticket,
    f: F,
    kind: Result<Kind, E>,
    after: Map<u128, Kind>,
    other: u128,
)
    requires
        got_or_inserted(before, t, f, kind, after),
    ensures
        other != t@ ==> after.get(other) == before.get(other),
        before.get(t@) is Some ==> kind == Ok::<Kind, E>(before[t@]) && after == before,
        before.get(t@) is None ==> match kind {
            Ok(kind) => {
                &&& after.get(t@) == Some(kind)
                &&& after.dom().len() == before.dom().len() + 1
                &&& held_pipes(after) == held_pipes(before) + 3
                &&& exists|spawned: Spawned| #[trigger]
                    f.ensures((), Ok::<Spawned, E>(spawned)) && kind.made_of(spawned)
            },
            Err(err) => after == before && f.ensures((), Err::<Spawned, E>(err)),
        },
{
    if let Ok(kind) = kind {
        if before.get(t@) is None {
            law_put_touches_one_ticket(before, t, kind, other);
        }
    }
}

/// Every outcome of `f` on a free ticket is one that getting or inserting admits:
/// a kind made of what `f` started goes under the ticket, an error changes
/// nothing. What stands under a ticket already can always be got.
pub proof fn law_get_or_insert_admits<E, F: FnOnce() -> Result<Spawned, E>>(
    before: Map<u128, Kind>,
    t: Ticket,
    f: F,
    spawned: Spawned,
    kind: Kind,
    err: E,
)
    ensures
        before.get(t@) is Some ==> got_or_inserted(
            before,
            t,
            f,
            Ok::<Kind, E>(before[t@]),
            before,
        ),
        before.get(t@) is None && f.ensures((), Ok::<Spawned, E>(spawned)) && kind.made_of(spawned)
            ==> got_or_inserted(before, t, f, Ok::<Kind, E>(kind), before.insert(t@, kind)),
        before.get(t@) is None && f.ensures((), Err::<Spawned, E>(err)) ==> got_or_inserted(
            before,
            t,
            f,
            Err::<Kind, E>(err),
            before,
        ),
{
}

/// A kind is made of a process with three pipes, and each of its mutexes was made
/// around that very process or pipe.
pub proof fn law_kind_guards_what_was_spawned(kind: Kind, spawned: Spawned)
    ensures
        kind.made_of(spawned) <==> {
            &&& spawned.stdin is Some
            &&& spawned.stdout is Some
            &&& spawned.stderr is Some
            &&& guards(kind.child_mutex(), spawned.inner)
            &&& guards(kind.stdin_mutex(), spawned.stdin->0)
            &&& guards(kind.stdout_mutex(), spawned.stdout->0)
            &&& guards(kind.stderr_mutex(), spawned.stderr->0)
        },
{
}

/// A process is piped exactly where none of its three streams is missing.
pub proof fn law_piped_means_three_pipes(spawned: Spawned)
    ensures
        !spawned.piped() <==> spawned.stdin is None || spawned.stdout is None || spawned.stderr
            is None,
{
}

/// A child has ended exactly where a poll returned a status, whatever the status.
pub proof fn law_terminated_means_a_status<E>(status: ExitStatus, err: E)
    ensures
        seen_terminated(Ok::<Option<ExitStatus>, E>(Some(status))),
        !seen_terminated(Ok::<Option<ExitStatus>, E>(None)),
        !seen_terminated(Err::<Option<ExitStatus>, E>(err)),
{
}

/// A child is judged to have ended well exactly where a poll found that it exited
/// with code zero. With any other code, without one, and while it runs, the
/// judgement is `false`; an error is given exactly where the poll gave that error.
pub proof fn law_success_means_code_zero<E>(polled: Result<Option<ExitStatus>, E>, err: E)
    ensures
        seen_success(polled) == Ok::<bool, E>(true) <==> polled == Ok::<Option<ExitStatus>, E>(
            Some(ExitStatus { code: Some(0i32) }),
        ),
        seen_success(polled) == Ok::<bool, E>(false) <==> polled is Ok && polled != Ok::<
            Option<ExitStatus>,
            E,
        >(Some(ExitStatus { code: Some(0i32) })),
        seen_success(polled) == Err::<bool, E>(err) <==> polled == Err::<Option<ExitStatus>, E>(
            err,
        ),
{
}

/// A status is a success exactly where its code is zero.
pub proof fn law_status_succeeds_with_code_zero(code: i32)
    ensures
        (ExitStatus { code: Some(code) }).is_success() <==> code == 0,
        !(ExitStatus { code: None }).is_success(),
{
}

/// The question whether a child has ended begins exactly where the ticket leads to
/// a child, polls that child, and takes it out of the garden exactly where the poll
/// returned a status; no other ticket is touched.
pub proof fn law_termination_check<E>(
    children: Map<u128, Kind>,
    later: Map<u128, Kind>,
    t: Ticket,
    polled: Result<Option<ExitStatus>, E>,
    other: u128,
)
    ensures
        match TerminationCheck::begun(children, t) {
            Some(check) => {
                &&& children.get(t@) == Some(check.kind)
                &&& check.ticket@ == t@
            },
            None => !children.dom().contains(t@),
        },
        polled is Ok && polled->Ok_0 is Some ==> {
            &&& termination_change(t, polled).apply(later).get(t@) is None
            &&& other != t@ ==> termination_change(t, polled).apply(later).get(other) == later.get(
                other,
            )
        },
        !(polled is Ok && polled->Ok_0 is Some) ==> termination_change(t, polled).apply(later)
            == later,
{
}

/// The question whether a child has ended well begins exactly where the ticket
/// leads to a child, polls that child, and takes it out of the garden exactly where
/// the poll did not fail; no other ticket is touched.
pub proof fn law_success_check<E>(
    children: Map<u128, Kind>,
    later: Map<u128, Kind>,
    t: Ticket,
    polled: Result<Option<ExitStatus>, E>,
    other: u128,
)
    ensures
        match SuccessCheck::begun(children, t) {
            Some(check) => {
                &&& children.get(t@) == Some(check.kind)
                &&& check.ticket@ == t@
            },
            None => !children.dom().contains(t@),
        },
        polled is Ok ==> {
            &&& success_change(t, polled).apply(later).get(t@) is None
            &&& other != t@ ==> success_change(t, polled).apply(later).get(other) == later.get(
                other,
            )
        },
        polled is Err ==> success_change(t, polled).apply(later) == later,
{
}

/// A process identifier is the very number that the operating system reported.
/// There is none exactly where there is no number, or one that no `i32` can hold.
pub proof fn law_pid_is_the_reported_number(id: Option<u32>, number: u32)
    ensures
        pid_of(id) matches Some(pid) ==> id is Some && pid.raw == id->0,
        pid_of(None) is None,
        pid_of(Some(number)) is None <==> number > 0x7fff_ffff,
{
}

/// The question for a process identifier begins exactly where the ticket leads to
/// a child, and asks that child.
pub proof fn law_pid_query(children: Map<u128, Kind>, t: Ticket)
    ensures
        match PidQuery::begun(children, t) {
            Some(query) => children.get(t@) == Some(query.kind),
            None => !children.dom().contains(t@),
        },
{
}

/// The signal that is sent is the one that was asked for, and it goes to the number
/// that the operating system reported of the child under the ticket. It is sent
/// exactly where the ticket leads to a child with a number that an `i32` can hold.
pub proof fn law_signal_reaches_the_child(
    children: Map<u128, Kind>,
    t: Ticket,
    signal: Signal,
    id: Option<u32>,
)
    ensures
        match SignalRequest::begun(children, t, signal) {
            Some(request) => {
                &&& children.get(t@) == Some(request.query.kind)
                &&& request.ticket@ == t@
                &&& request.signal.number == signal.number
                &&& match request.after(id) {
                    Some(ready) => {
                        &&& id is Some
                        &&& ready.pid.raw == id->0
                        &&& ready.signal.number == signal.number
                        &&& ready.ticket@ == t@
                    },
                    None => id is None || id->0 > 0x7fff_ffff,
                }
            },
            None => !children.dom().contains(t@),
        },
{
}

/// To terminate a child is to send it signal 15.
pub proof fn law_terminate_sends_fifteen(children: Map<u128, Kind>, t: Ticket, id: u32)
    requires
        children.get(t@) is Some,
        id <= 0x7fff_ffff,
    ensures
        SignalRequest::begun(children, t, Signal { number: SIGTERM }) matches Some(request)
            && request.after(Some(id)) matches Some(ready) && ready.signal.number == 15
            && ready.pid.raw == id,
{
}

/// After a signal the wait is for the child that the ticket leads to by then, and
/// there is none exactly where it leads to no child. A signal that could not be sent
/// gives its error, and no wait.
pub proof fn law_signal_goes_on_to_wait<E>(
    later: Map<u128, Kind>,
    ready: SignalReady,
    sent: Result<(), E>,
)
    ensures
        match ready.after(later, sent) {
            Some(Ok(waiting)) => {
                &&& sent is Ok
                &&& later.get(ready.ticket@) == Some(waiting.kind)
                &&& waiting.ticket@ == ready.ticket@
            },
            Some(Err(err)) => sent is Err && sent->Err_0 == err,
            None => sent is Ok && !later.dom().contains(ready.ticket@),
        },
{
}

/// A kill begins exactly where the ticket leads to a child, and kills that child;
/// then the wait is for the same child under the same ticket. A kill that could not
/// be started gives its error, and no wait.
pub proof fn law_kill_goes_on_to_wait<E>(
    children: Map<u128, Kind>,
    t: Ticket,
    started: Result<(), E>,
)
    ensures
        match KillRequest::begun(children, t) {
            Some(request) => {
                &&& children.get(t@) == Some(request.kind)
                &&& request.ticket@ == t@
                &&& match request.after(started) {
                    Ok(waiting) => {
                        &&& started is Ok
                        &&& children.get(t@) == Some(waiting.kind)
                        &&& waiting.ticket@ == t@
                    },
                    Err(err) => started is Err && started->Err_0 == err,
                }
            },
            None => !children.dom().contains(t@),
        },
{
}

/// A wait begins exactly where the ticket leads to a child, and is for that child.
/// Its end takes that ticket, and no other, out of the garden as it is by then.
pub proof fn law_wait_takes_its_ticket(
    children: Map<u128, Kind>,
    later: Map<u128, Kind>,
    t: Ticket,
    other: u128,
)
    ensures
        match Waiting::begun(children, t) {
            Some(waiting) => {
                &&& children.get(t@) == Some(waiting.kind)
                &&& waiting.ticket@ == t@
                &&& waiting.change().apply(later).get(t@) is None
                &&& other != t@ ==> waiting.change().apply(later).get(other) == later.get(other)
            },
            None => !children.dom().contains(t@),
        },
{
}

/// However a wait came about, its end takes exactly its own ticket out of the
/// garden.
pub proof fn law_end_of_wait_takes_its_ticket(
    waiting: Waiting,
    later: Map<u128, Kind>,
    other: u128,
)
    ensures
        waiting.change().apply(later).get(waiting.ticket@) is None,
        other != waiting.ticket@ ==> waiting.change().apply(later).get(other) == later.get(other),
{
}

/// The ticket that is followed is one that the provider itself returned, whole and
/// unchanged; and any that it may return can be followed.
pub proof fn law_followed_ticket_is_the_providers<T: ChildProcess>(
    access: ChildAccess<T>,
    t: Ticket,
)
    ensures
        access.may_name(t) <==> call_ensures(T::ticket, (&access.provider,), t),
{
}

} // verus!
