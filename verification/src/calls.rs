//! What the calls of the library give, one after another, stated of the calls
//! themselves: `call_ensures` holds of a function, its arguments and its result
//! where a call with these arguments may return this result.
use crate::child::{ChildAccess, ChildProcess};
use crate::garden::Kindergarten;
use crate::kind::{Kind, Spawned};
use crate::outside::{drawn, guards};
use crate::pending::{
    KillRequest, PidQuery, SignalReady, SignalRequest, SuccessCheck, TerminationCheck, Waiting,
};
use crate::status::{ExitStatus, Pid, Signal};
use crate::ticket::Ticket;
use std::sync::Arc;
use tokio::process::{Child, ChildStderr, ChildStdin, ChildStdout};
use tokio::sync::Mutex;
use vstd::prelude::*;

verus! {

/// A new garden leads nowhere.
pub proof fn law_new_garden_is_empty(garden: Kindergarten, id: u128)
    requires
        call_ensures(<Kindergarten as Default>::default, (), garden),
    ensures
        garden@.get(id) is None,
{
}

/// To get a child is to look under the number of the ticket, whole.
pub proof fn law_get(garden: Kindergarten, t: Ticket, kind: Option<Kind>)
    requires
        call_ensures(Kindergarten::get, (&garden, t), kind),
    ensures
        kind is Some <==> garden@.dom().contains(t@),
        kind is Some ==> kind->0 == garden@[t@],
{
}

/// To remove a child gives what getting it would have given; afterwards the ticket
/// leads nowhere, and every other number to what it led to.
pub proof fn law_remove(
    garden: &mut Kindergarten,
    t: Ticket,
    kind: Option<Kind>,
    found: Option<Kind>,
    other: u128,
)
    requires
        call_ensures(Kindergarten::remove, (garden, t), kind),
        call_ensures(Kindergarten::get, (&*old(garden), t), found),
    ensures
        kind == found,
        final(garden)@.get(t@) is None,
        other != t@ ==> final(garden)@.get(other) == old(garden)@.get(other),
{
}

/// A spawn that was given a started child hands out a ticket that `Uuid::new_v4`
/// drew. The ticket leads to that child, and every other number to what it led to.
/// An error is handed back, and nothing changes.
pub proof fn law_spawn<E>(
    garden: &mut Kindergarten,
    spawned: Result<Spawned, E>,
    ticket: Result<Ticket, E>,
    other: u128,
)
    requires
        call_ensures(Kindergarten::spawn::<E>, (garden, spawned), ticket),
    ensures
        match spawned {
            Ok(spawned) => {
                &&& ticket is Ok
                &&& drawn(ticket->Ok_0@)
                &&& (ticket->Ok_0@ >> 76) & 0xf == 4
                &&& (ticket->Ok_0@ >> 62) & 0x3 == 2
                &&& final(garden)@.dom().contains(ticket->Ok_0@)
                &&& guards(final(garden)@[ticket->Ok_0@].child_mutex(), spawned.inner)
                &&& other != ticket->Ok_0@ ==> final(garden)@.get(other) == old(garden)@.get(other)
            },
            Err(err) => ticket is Err && ticket->Err_0 == err && final(garden)@ == old(garden)@,
        },
{
}

/// A spawn under a given ticket hands that ticket back. It leads to the child, and
/// every other number to what it led to. An error is handed back, and nothing
/// changes.
pub proof fn law_spawn_under<E>(
    garden: &mut Kindergarten,
    t: Ticket,
    spawned: Result<Spawned, E>,
    ticket: Result<Ticket, E>,
    other: u128,
)
    requires
        call_ensures(Kindergarten::spawn_under::<E>, (garden, t, spawned), ticket),
    ensures
        match spawned {
            Ok(spawned) => {
                &&& ticket is Ok
                &&& ticket->Ok_0@ == t@
                &&& final(garden)@.dom().contains(t@)
                &&& guards(final(garden)@[t@].child_mutex(), spawned.inner)
                &&& other != t@ ==> final(garden)@.get(other) == old(garden)@.get(other)
            },
            Err(err) => ticket is Err && ticket->Err_0 == err && final(garden)@ == old(garden)@,
        },
{
}

/// To get a child or to start one gives what the ticket leads to afterwards, and
/// leaves every other number alone. Where a child was there it is the one that
/// comes back, and nothing changes; where none was, what comes back was started by
/// `f`, or the error is one that `f` returned, and nothing changes.
pub proof fn law_get_or_insert_with<E, F: FnOnce() -> Result<Spawned, E>>(
    garden: &mut Kindergarten,
    t: Ticket,
    f: F,
    kind: Result<Kind, E>,
    other: u128,
)
    requires
        call_ensures(Kindergarten::get_or_insert_with::<E, F>, (garden, t, f), kind),
    ensures
        other != t@ ==> final(garden)@.get(other) == old(garden)@.get(other),
        kind is Ok ==> final(garden)@.get(t@) == Some(kind->Ok_0),
        old(garden)@.dom().contains(t@) ==> {
            &&& kind is Ok
            &&& kind->Ok_0 == old(garden)@[t@]
            &&& final(garden)@ == old(garden)@
        },
        !old(garden)@.dom().contains(t@) && kind is Ok ==> exists|spawned: Spawned| #[trigger]
            f.ensures((), Ok::<Spawned, E>(spawned)) && guards(
                kind->Ok_0.child_mutex(),
                spawned.inner,
            ),
        kind is Err ==> {
            &&& !old(garden)@.dom().contains(t@)
            &&& f.ensures((), Err::<Spawned, E>(kind->Err_0))
            &&& final(garden)@ == old(garden)@
        },
{
    if !old(garden)@.dom().contains(t@) && kind is Ok {
        let spawned = choose|spawned: Spawned| #[trigger]
            f.ensures((), Ok::<Spawned, E>(spawned)) && kind->Ok_0.made_of(spawned);
        assert(f.ensures((), Ok::<Spawned, E>(spawned)));
        assert(guards(kind->Ok_0.child_mutex(), spawned.inner));
    }
}

/// What spawn put into the garden, the ticket that it handed out gets back, as long
/// as the garden stays as it is.
pub proof fn law_spawn_then_get<E>(
    garden: &mut Kindergarten,
    spawned: Spawned,
    ticket: Result<Ticket, E>,
    kind: Option<Kind>,
)
    requires
        call_ensures(Kindergarten::spawn::<E>, (garden, Ok::<Spawned, E>(spawned)), ticket),
        ticket is Ok ==> call_ensures(Kindergarten::get, (&*final(garden), ticket->Ok_0), kind),
    ensures
        ticket is Ok,
        kind is Some,
        guards(kind->0.child_mutex(), spawned.inner),
{
}

/// A kind for a started child has each of its pipes, and the process, behind a
/// mutex that was made around it. An error is handed back.
pub proof fn law_kind_new<E>(spawned: Result<Spawned, E>, kind: Result<Kind, E>)
    requires
        call_ensures(Kind::new::<E>, (spawned,), kind),
    ensures
        match spawned {
            Ok(spawned) => {
                &&& kind is Ok
                &&& guards(kind->Ok_0.child_mutex(), spawned.inner)
                &&& spawned.stdin is Some && guards(kind->Ok_0.stdin_mutex(), spawned.stdin->0)
                &&& spawned.stdout is Some && guards(kind->Ok_0.stdout_mutex(), spawned.stdout->0)
                &&& spawned.stderr is Some && guards(kind->Ok_0.stderr_mutex(), spawned.stderr->0)
            },
            Err(err) => kind is Err && kind->Err_0 == err,
        },
{
}

/// The getters of a kind, and of any clone of it, give the mutexes of that kind.
pub proof fn law_kind_getters(
    kind: Kind,
    other: Kind,
    child: Arc<Mutex<Child>>,
    stdin: Arc<Mutex<ChildStdin>>,
    stdout: Arc<Mutex<ChildStdout>>,
    stderr: Arc<Mutex<ChildStderr>>,
)
    requires
        call_ensures(<Kind as Clone>::clone, (&kind,), other),
        call_ensures(Kind::child, (&other,), child),
        call_ensures(Kind::stdin, (&other,), stdin),
        call_ensures(Kind::stdout, (&other,), stdout),
        call_ensures(Kind::stderr, (&other,), stderr),
    ensures
        *child == kind.child_mutex(),
        *stdin == kind.stdin_mutex(),
        *stdout == kind.stdout_mutex(),
        *stderr == kind.stderr_mutex(),
{
}

/// A stream is had from the garden exactly where the child is, and it is the one
/// that the child itself gives.
pub proof fn law_streams(
    garden: Kindergarten,
    t: Ticket,
    kind: Option<Kind>,
    stdin: Option<Arc<Mutex<ChildStdin>>>,
    stdout: Option<Arc<Mutex<ChildStdout>>>,
    stderr: Option<Arc<Mutex<ChildStderr>>>,
)
    requires
        call_ensures(Kindergarten::get, (&garden, t), kind),
        call_ensures(Kindergarten::stdin, (&garden, t), stdin),
        call_ensures(Kindergarten::stdout, (&garden, t), stdout),
        call_ensures(Kindergarten::stderr, (&garden, t), stderr),
    ensures
        stdin is Some <==> kind is Some,
        stdout is Some <==> kind is Some,
        stderr is Some <==> kind is Some,
        kind is Some ==> {
            &&& *stdin->0 == kind->0.stdin_mutex()
            &&& *stdout->0 == kind->0.stdout_mutex()
            &&& *stderr->0 == kind->0.stderr_mutex()
        },
{
}

/// The question whether a child has ended: nothing to poll exactly where the ticket
/// leads nowhere, else that child. The answer is `true` exactly where the poll
/// returned a status, and exactly then the ticket, and no other, leads nowhere
/// afterwards.
pub proof fn law_has_terminated<E>(
    asked: Kindergarten,
    t: Ticket,
    check: Option<TerminationCheck>,
    garden: &mut Kindergarten,
    polled: Result<Option<ExitStatus>, E>,
    terminated: bool,
    other: u128,
)
    requires
        call_ensures(Kindergarten::has_terminated, (&asked, t), check),
        check is Some ==> call_ensures(
            TerminationCheck::polled::<E>,
            (check->0, garden, polled),
            terminated,
        ),
    ensures
        check is Some <==> asked@.dom().contains(t@),
        check is Some ==> {
            &&& check->0.kind == asked@[t@]
            &&& terminated <==> polled is Ok && polled->Ok_0 is Some
            &&& terminated ==> final(garden)@.get(t@) is None
            &&& !terminated ==> final(garden)@ == old(garden)@
            &&& other != t@ ==> final(garden)@.get(other) == old(garden)@.get(other)
        },
{
}

/// The question whether a child has ended well: nothing to poll exactly where the
/// ticket leads nowhere, else that child. The answer is `true` exactly where the
/// poll returned exit code zero, an error exactly where the poll gave that error,
/// and else `false`. With an answer the ticket, and no other, leads nowhere
/// afterwards; with an error nothing changes.
pub proof fn law_success<E>(
    asked: Kindergarten,
    t: Ticket,
    check: Option<SuccessCheck>,
    garden: &mut Kindergarten,
    polled: Result<Option<ExitStatus>, E>,
    success: Result<bool, E>,
    other: u128,
)
    requires
        call_ensures(Kindergarten::success, (&asked, t), check),
        check is Some ==> call_ensures(
            SuccessCheck::polled::<E>,
            (check->0, garden, polled),
            success,
        ),
    ensures
        check is Some <==> asked@.dom().contains(t@),
        check is Some ==> {
            &&& check->0.kind == asked@[t@]
            &&& success is Ok <==> polled is Ok
            &&& polled is Ok ==> (success->Ok_0 <==> polled->Ok_0 is Some && polled->Ok_0->0.code
                == Some(0i32))
            &&& polled is Err ==> success->Err_0 == polled->Err_0
            &&& polled is Ok ==> final(garden)@.get(t@) is None
            &&& polled is Err ==> final(garden)@ == old(garden)@
            &&& other != t@ ==> final(garden)@.get(other) == old(garden)@.get(other)
        },
{
}

/// The question for a process identifier: nothing to ask exactly where the ticket
/// leads nowhere, else that child. The answer is the number that was reported, and
/// there is none exactly where no number was, or one that no `i32` can hold.
pub proof fn law_pid(
    asked: Kindergarten,
    t: Ticket,
    query: Option<PidQuery>,
    id: Option<u32>,
    pid: Option<Pid>,
)
    requires
        call_ensures(Kindergarten::pid, (&asked, t), query),
        query is Some ==> call_ensures(PidQuery::identified, (query->0, id), pid),
    ensures
        query is Some <==> asked@.dom().contains(t@),
        query is Some ==> {
            &&& query->0.kind == asked@[t@]
            &&& pid is Some <==> id is Some && id->0 <= 0x7fff_ffff
            &&& pid is Some ==> pid->0.raw == id->0
        },
{
}

/// A process identifier made of a number is that number.
pub proof fn law_pid_from_id(id: Option<u32>, pid: Option<Pid>)
    requires
        call_ensures(Pid::from_id, (id,), pid),
    ensures
        pid is Some <==> id is Some && id->0 <= 0x7fff_ffff,
        pid is Some ==> pid->0.raw == id->0,
{
}

/// A signal: nothing to do exactly where the ticket leads nowhere; else the child
/// there is asked for its number, and the very signal that was asked for goes to the
/// very number that was reported, unless there is none or no `i32` can hold it. Once
/// it was sent, the child that the ticket leads to by then is waited for; an error
/// of sending ends the matter.
pub proof fn law_send_signal<E>(
    asked: Kindergarten,
    t: Ticket,
    sig: Signal,
    request: Option<SignalRequest>,
    id: Option<u32>,
    ready: Option<SignalReady>,
    later: Kindergarten,
    sent: Result<(), E>,
    next: Option<Result<Waiting, E>>,
)
    requires
        call_ensures(Kindergarten::send_signal, (&asked, t, sig), request),
        request is Some ==> call_ensures(SignalRequest::identified, (request->0, id), ready),
        request is Some && ready is Some ==> call_ensures(
            SignalReady::sent::<E>,
            (ready->0, &later, sent),
            next,
        ),
    ensures
        request is Some <==> asked@.dom().contains(t@),
        request is Some ==> {
            &&& request->0.query.kind == asked@[t@]
            &&& ready is Some <==> id is Some && id->0 <= 0x7fff_ffff
            &&& ready is Some ==> {
                &&& ready->0.signal.number == sig.number
                &&& ready->0.pid.raw == id->0
                &&& sent is Err ==> next is Some && next->0 is Err && next->0->Err_0
                    == sent->Err_0
                &&& sent is Ok ==> (next is Some <==> later@.dom().contains(t@))
                &&& sent is Ok && next is Some ==> {
                    &&& next->0 is Ok
                    &&& next->0->Ok_0.kind == later@[t@]
                    &&& next->0->Ok_0.ticket@ == t@
                }
            }
        },
{
}

/// To terminate a child is to send it signal 15.
pub proof fn law_terminate(
    asked: Kindergarten,
    t: Ticket,
    request: Option<SignalRequest>,
    same: Option<SignalRequest>,
)
    requires
        call_ensures(Kindergarten::terminate, (&asked, t), request),
        call_ensures(Kindergarten::send_signal, (&asked, t, Signal { number: 15 }), same),
    ensures
        request == same,
{
}

/// A kill: nothing to do exactly where the ticket leads nowhere; else the child
/// there is killed. Once that was started, the same child is waited for; an error of
/// starting it ends the matter.
pub proof fn law_kill<E>(
    asked: Kindergarten,
    t: Ticket,
    request: Option<KillRequest>,
    started: Result<(), E>,
    next: Result<Waiting, E>,
)
    requires
        call_ensures(Kindergarten::kill, (&asked, t), request),
        request is Some ==> call_ensures(KillRequest::started::<E>, (request->0, started), next),
    ensures
        request is Some <==> asked@.dom().contains(t@),
        request is Some ==> {
            &&& request->0.kind == asked@[t@]
            &&& started is Ok ==> {
                &&& next is Ok
                &&& next->Ok_0.kind == asked@[t@]
                &&& next->Ok_0.ticket@ == t@
            }
            &&& started is Err ==> next is Err && next->Err_0 == started->Err_0
        },
{
}

/// A wait: nothing to do exactly where the ticket leads nowhere; else the child
/// there is waited for.
pub proof fn law_wait(asked: Kindergarten, t: Ticket, waiting: Option<Waiting>)
    requires
        call_ensures(Kindergarten::wait, (&asked, t), waiting),
    ensures
        waiting is Some <==> asked@.dom().contains(t@),
        waiting is Some ==> waiting->0.kind == asked@[t@] && waiting->0.ticket@ == t@,
{
}

/// The end of a wait, however it came about, gives the status or the error of the
/// wait. The ticket that was waited for, and no other, leads nowhere afterwards.
pub proof fn law_exited<S, E>(
    waiting: Waiting,
    garden: &mut Kindergarten,
    status: Result<S, E>,
    reply: Result<S, E>,
    other: u128,
)
    requires
        call_ensures(Waiting::exited::<S, E>, (waiting, garden, status), reply),
    ensures
        reply == status,
        final(garden)@.get(waiting.ticket@) is None,
        other != waiting.ticket@ ==> final(garden)@.get(other) == old(garden)@.get(other),
{
}

/// A status is a success exactly where the exit code is zero.
pub proof fn law_exit_status(status: ExitStatus, success: bool)
    requires
        call_ensures(ExitStatus::success, (&status,), success),
    ensures
        success <==> status.code == Some(0i32),
{
}

/// A process is piped exactly where no stream lacks its pipe.
pub proof fn law_is_piped(spawned: Spawned, piped: bool)
    requires
        call_ensures(Spawned::is_piped, (&spawned,), piped),
    ensures
        piped <==> spawned.stdin is Some && spawned.stdout is Some && spawned.stderr is Some,
{
}

/// A ticket gives back the number that it was made of, and different numbers make
/// different tickets.
pub proof fn law_ticket_round_trip(a: u128, b: u128, ticket: Ticket, other: Ticket, id: u128)
    requires
        call_ensures(Ticket::from_u128, (a,), ticket),
        call_ensures(Ticket::from_u128, (b,), other),
        call_ensures(Ticket::as_u128, (&ticket,), id),
    ensures
        id == a,
        ticket == other <==> a == b,
{
    if a == b {
        crate::ticket::law_ticket_is_its_number(ticket, other);
    }
}

/// Where the provider returns one ticket and no other, access by the provider is
/// access by that ticket.
pub proof fn law_access_get<T: ChildProcess>(
    access: ChildAccess<T>,
    garden: Kindergarten,
    kind: Option<Kind>,
    named: Ticket,
    found: Option<Kind>,
)
    requires
        call_ensures(ChildAccess::<T>::get, (&access, &garden), kind),
        forall|t: Ticket| #[trigger]
            call_ensures(T::ticket, (&access.provider,), t) ==> t == named,
        call_ensures(Kindergarten::get, (&garden, named), found),
    ensures
        kind == found,
{
}

/// Where the provider returns one ticket and no other, to get a child by the provider
/// or to start one touches that ticket alone, and gives what it leads to afterwards.
/// Where a child was there it is the one that comes back, and nothing changes.
pub proof fn law_access_get_or_spawn_with<
    T: ChildProcess,
    E,
    F: FnOnce() -> Result<Spawned, E>,
>(
    access: ChildAccess<T>,
    garden: &mut Kindergarten,
    f: F,
    kind: Result<Kind, E>,
    named: Ticket,
    other: u128,
)
    requires
        call_ensures(ChildAccess::<T>::get_or_spawn_with::<E, F>, (&access, garden, f), kind),
        forall|t: Ticket| #[trigger]
            call_ensures(T::ticket, (&access.provider,), t) ==> t == named,
    ensures
        other != named@ ==> final(garden)@.get(other) == old(garden)@.get(other),
        kind is Ok ==> final(garden)@.get(named@) == Some(kind->Ok_0),
        old(garden)@.dom().contains(named@) ==> {
            &&& kind is Ok
            &&& kind->Ok_0 == old(garden)@[named@]
            &&& final(garden)@ == old(garden)@
        },
        !old(garden)@.dom().contains(named@) && kind is Ok ==> exists|spawned: Spawned| #[trigger]
            f.ensures((), Ok::<Spawned, E>(spawned)) && guards(
                kind->Ok_0.child_mutex(),
                spawned.inner,
            ),
        kind is Err ==> {
            &&& !old(garden)@.dom().contains(named@)
            &&& f.ensures((), Err::<Spawned, E>(kind->Err_0))
            &&& final(garden)@ == old(garden)@
        },
{
    if !old(garden)@.dom().contains(named@) && kind is Ok {
        let spawned = choose|spawned: Spawned| #[trigger]
            f.ensures((), Ok::<Spawned, E>(spawned)) && kind->Ok_0.made_of(spawned);
        assert(f.ensures((), Ok::<Spawned, E>(spawned)));
        assert(guards(kind->Ok_0.child_mutex(), spawned.inner));
    }
}

/// No garden and no ticket is refused by a call that only looks.
pub proof fn law_every_ticket_may_be_asked_for(garden: Kindergarten, t: Ticket, sig: Signal)
    ensures
        call_requires(Kindergarten::get, (&garden, t)),
        call_requires(Kindergarten::stdin, (&garden, t)),
        call_requires(Kindergarten::stdout, (&garden, t)),
        call_requires(Kindergarten::stderr, (&garden, t)),
        call_requires(Kindergarten::has_terminated, (&garden, t)),
        call_requires(Kindergarten::success, (&garden, t)),
        call_requires(Kindergarten::pid, (&garden, t)),
        call_requires(Kindergarten::terminate, (&garden, t)),
        call_requires(Kindergarten::send_signal, (&garden, t, sig)),
        call_requires(Kindergarten::kill, (&garden, t)),
        call_requires(Kindergarten::wait, (&garden, t)),
{
}

/// No outcome is refused by an operation that waits for it, whatever the garden has
/// become.
pub proof fn law_every_outcome_may_be_reported<S, E>(
    garden: &mut Kindergarten,
    later: Kindergarten,
    termination: TerminationCheck,
    success: SuccessCheck,
    query: PidQuery,
    request: SignalRequest,
    ready: SignalReady,
    kill: KillRequest,
    waiting: Waiting,
    polled: Result<Option<ExitStatus>, E>,
    id: Option<u32>,
    done: Result<(), E>,
    status: Result<S, E>,
)
    ensures
        call_requires(TerminationCheck::polled::<E>, (termination, garden, polled)),
        call_requires(SuccessCheck::polled::<E>, (success, garden, polled)),
        call_requires(PidQuery::identified, (query, id)),
        call_requires(SignalRequest::identified, (request, id)),
        call_requires(SignalReady::sent::<E>, (ready, &later, done)),
        call_requires(KillRequest::started::<E>, (kill, done)),
        call_requires(Waiting::exited::<S, E>, (waiting, garden, status)),
{
}

/// A child with three pipes, or an error, may be taken in under any ticket, and
/// anything may be removed.
pub proof fn law_every_piped_child_may_be_taken_in<E>(
    garden: &mut Kindergarten,
    t: Ticket,
    spawned: Result<Spawned, E>,
)
    requires
        spawned is Ok ==> spawned->Ok_0.stdin is Some && spawned->Ok_0.stdout is Some
            && spawned->Ok_0.stderr is Some,
    ensures
        call_requires(Kind::new::<E>, (spawned,)),
        call_requires(Kindergarten::spawn::<E>, (garden, spawned)),
        call_requires(Kindergarten::spawn_under::<E>, (garden, t, spawned)),
        call_requires(Kindergarten::remove, (garden, t)),
{
}

/// Where a child stands under the ticket, it may be asked for with any `f`, one that
/// may never be called among them: so `f` is not called there.
pub proof fn law_present_child_needs_no_start<E, F: FnOnce() -> Result<Spawned, E>>(
    garden: &mut Kindergarten,
    t: Ticket,
    f: F,
)
    requires
        old(garden)@.dom().contains(t@),
    ensures
        call_requires(Kindergarten::get_or_insert_with::<E, F>, (garden, t, f)),
{
}

/// Where every ticket that the provider may return leads to a child, the child may be
/// asked for by the provider with any `f`: so `f` is not called there.
pub proof fn law_present_child_needs_no_spawn<
    T: ChildProcess,
    E,
    F: FnOnce() -> Result<Spawned, E>,
>(access: ChildAccess<T>, garden: &mut Kindergarten, f: F)
    requires
        forall|t: Ticket| #[trigger]
            call_ensures(T::ticket, (&access.provider,), t) ==> old(garden)@.dom().contains(t@),
    ensures
        call_requires(ChildAccess::<T>::get_or_spawn_with::<E, F>, (&access, garden, f)),
{
}

} // verus!
