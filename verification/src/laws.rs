//! What holds of the garden as a whole: of several calls, of every order in
//! which tasks take turns, and of an operation from its beginning to its reply.
use crate::garden::{got_or_inserted, is_free, Change};
use crate::kind::{Kind, Spawned};
use crate::pending::{
    success_change, termination_change, KillRequest, PidQuery, SignalRequest, SuccessCheck,
    TerminationCheck, Waiting,
};
use crate::status::{pid_of, seen_success, seen_terminated, ExitStatus, Pid, Signal};
use crate::ticket::Ticket;
use vstd::prelude::*;

verus! {

/// The children after a sequence of changes, whichever task each of them came
/// from.
pub open spec fn after_all(children: Map<u128, Kind>, changes: Seq<Change>) -> Map<u128, Kind>
    decreases changes.len(),
{
    if changes.len() == 0 {
        children
    } else {
        changes.last().apply(after_all(children, changes.drop_last()))
    }
}

/// The last of the changes that concerns this ticket.
pub open spec fn last_change(changes: Seq<Change>, ticket: Ticket) -> Option<Change>
    decreases changes.len(),
{
    if changes.len() == 0 {
        None
    } else if changes.last().concerns(ticket) {
        Some(changes.last())
    } else {
        last_change(changes.drop_last(), ticket)
    }
}

/// The pipe ends that the children of a garden stand for. A kind is made of
/// exactly three ([`Kind::made_of`]): standard input, output and error. Handles
/// that are held elsewhere, and pipes that such a handle keeps open after its
/// child has left, are not counted.
pub open spec fn held_pipes(children: Map<u128, Kind>) -> nat {
    3 * children.len()
}

/// The changes that put each of these kinds under its ticket, in turn.
pub open spec fn puts(planted: Seq<(Ticket, Kind)>) -> Seq<Change> {
    planted.map_values(|pair: (Ticket, Kind)| Change::Put(pair.0, pair.1))
}

/// After a change that puts a kind under a ticket, the ticket leads to that kind.
pub proof fn law_put_is_found(children: Map<u128, Kind>, t: Ticket, kind: Kind)
    ensures
        Change::Put(t, kind).apply(children).get(t@) == Some(kind),
{
}

/// After a change that removes what stands under a ticket, the ticket leads to
/// nothing, and to remove it once more changes nothing.
pub proof fn law_removed_is_gone(children: Map<u128, Kind>, t: Ticket)
    ensures
        Change::Remove(t).apply(children).get(t@) is None,
        Change::Remove(t).apply(Change::Remove(t).apply(children)) == Change::Remove(t).apply(
            children,
        ),
{
    assert(Change::Remove(t).apply(Change::Remove(t).apply(children)) =~= Change::Remove(t).apply(
        children,
    ));
}

/// A change leaves alone every ticket that it does not concern.
pub proof fn law_other_tickets_stay(children: Map<u128, Kind>, change: Change, t: Ticket)
    requires
        !change.concerns(t),
    ensures
        change.apply(children).get(t@) == children.get(t@),
{
}

/// Changes that concern different tickets can come in either order.
pub proof fn law_changes_commute(children: Map<u128, Kind>, a: Change, b: Change)
    requires
        forall|t: Ticket| !(#[trigger] a.concerns(t) && b.concerns(t)),
    ensures
        a.apply(b.apply(children)) == b.apply(a.apply(children)),
{
    match a {
        Change::Put(t, _) => {
            assert(a.concerns(t));
        },
        Change::Remove(t) => {
            assert(a.concerns(t));
        },
        Change::Keep => {},
    }
    assert(a.apply(b.apply(children)) =~= b.apply(a.apply(children)));
}

/// Whatever the order in which tasks take turns, the last change that concerns a
/// ticket decides what the ticket leads to; without one, it is what it was.
pub proof fn law_last_change_decides(children: Map<u128, Kind>, changes: Seq<Change>, t: Ticket)
    ensures
        after_all(children, changes).get(t@) == (match last_change(changes, t) {
            Some(Change::Put(_, kind)) => Some(kind),
            Some(_) => None,
            None => children.get(t@),
        }),
    decreases changes.len(),
{
    if changes.len() > 0 {
        law_last_change_decides(children, changes.drop_last(), t);
    }
}

/// A child that was put into the garden is found under its ticket until a change
/// concerns that ticket.
pub proof fn law_child_stays(
    children: Map<u128, Kind>,
    t: Ticket,
    kind: Kind,
    changes: Seq<Change>,
)
    requires
        last_change(changes, t) is None,
    ensures
        after_all(Change::Put(t, kind).apply(children), changes).get(t@) == Some(kind),
{
    law_put_is_found(children, t, kind);
    law_last_change_decides(Change::Put(t, kind).apply(children), changes, t);
}

/// Children that came and went leave no trace, in whatever order tasks took
/// turns: where each ticket that was used was free at first and was given up at
/// last, the garden ends as it began, and stands for as many pipes.
pub proof fn law_no_trace(children: Map<u128, Kind>, changes: Seq<Change>)
    requires
        forall|t: Ticket| #[trigger]
            last_change(changes, t) is Some ==> children.get(t@) is None && last_change(changes, t)
                matches Some(Change::Remove(_)),
    ensures
        after_all(children, changes) == children,
        held_pipes(after_all(children, changes)) == held_pipes(children),
{
    let after = after_all(children, changes);
    assert forall|id: u128| #[trigger] after.get(id) == children.get(id) by {
        let t = crate::ticket::lemma_ticket_of(id);
        law_last_change_decides(children, changes, t);
    }
    assert forall|id: u128| #[trigger]
        after.dom().contains(id) == children.dom().contains(id) && (after.dom().contains(id)
            ==> after[id] == children[id]) by {
        assert(after.get(id) == children.get(id));
    }
    assert(after =~= children);
}

/// Every garden has finitely many children.
pub(crate) proof fn lemma_finite(children: Map<u128, Kind>)
    ensures
        children.dom().finite(),
{
    broadcast use vstd::set_lib::full_set_properties;
    assert(Set::<u128>::full().finite());
    vstd::set_lib::lemma_set_subset_finite(Set::<u128>::full(), children.dom());
}

/// The garden stands for exactly three pipes more with each new child under a
/// ticket that was free.
pub proof fn law_pipes_of_new_children(children: Map<u128, Kind>, planted: Seq<(Ticket, Kind)>)
    requires
        forall|i: int| 0 <= i < planted.len() ==> children.get((#[trigger] planted[i]).0@) is None,
        forall|i: int, j: int|
            0 <= i < j < planted.len() ==> (#[trigger] planted[i]).0@ != (#[trigger] planted[j]).0@,
    ensures
        held_pipes(after_all(children, puts(planted))) == held_pipes(children) + 3 * planted.len(),
    decreases planted.len(),
{
    if planted.len() > 0 {
        let earlier = planted.drop_last();
        let t = planted.last().0;
        law_pipes_of_new_children(children, earlier);
        assert(puts(planted).drop_last() =~= puts(earlier));
        assert(puts(planted).last() == Change::Put(t, planted.last().1));
        lemma_untouched_by_puts(earlier, t);
        law_last_change_decides(children, puts(earlier), t);
        lemma_finite(after_all(children, puts(earlier)));
        assert(after_all(children, puts(planted)).dom() =~= after_all(
            children,
            puts(earlier),
        ).dom().insert(t@));
    }
}

/// With a child that leaves, the garden stands for exactly three pipes fewer.
pub proof fn law_pipes_of_removed_child(children: Map<u128, Kind>, t: Ticket)
    requires
        children.get(t@) is Some,
    ensures
        held_pipes(Change::Remove(t).apply(children)) == held_pipes(children) - 3,
{
    lemma_finite(children);
    assert(Change::Remove(t).apply(children).dom() =~= children.dom().remove(t@));
}

/// No change of `puts` concerns a ticket that is not among the planted ones.
proof fn lemma_untouched_by_puts(planted: Seq<(Ticket, Kind)>, t: Ticket)
    requires
        forall|i: int| 0 <= i < planted.len() ==> (#[trigger] planted[i]).0@ != t@,
    ensures
        last_change(puts(planted), t) is None,
    decreases planted.len(),
{
    if planted.len() > 0 {
        assert(puts(planted).drop_last() =~= puts(planted.drop_last()));
        assert(puts(planted).last() == Change::Put(planted.last().0, planted.last().1));
        assert(planted[planted.len() - 1].0@ != t@);
        lemma_untouched_by_puts(planted.drop_last(), t);
    }
}

/// A wait from beginning to end, for a ticket looked up among `children`: its
/// reply, and what it does to the garden at the end.
pub open spec fn wait_run<S, E>(
    children: Map<u128, Kind>,
    t: Ticket,
    status: Result<S, E>,
) -> (Option<Result<S, E>>, Change) {
    match Waiting::begun(children, t) {
        Some(waiting) => (Some(status), waiting.change()),
        None => (None, Change::Keep),
    }
}

/// A kill from beginning to end, for a ticket looked up among `children`.
pub open spec fn kill_run<S, E>(
    children: Map<u128, Kind>,
    t: Ticket,
    started: Result<(), E>,
    status: Result<S, E>,
) -> (Option<Result<S, E>>, Change) {
    match KillRequest::begun(children, t) {
        Some(request) => match request.after(started) {
            Ok(waiting) => (Some(status), waiting.change()),
            Err(err) => (Some(Err(err)), Change::Keep),
        },
        None => (None, Change::Keep),
    }
}

/// A signal from beginning to end, for a ticket looked up among `children`, and
/// once more among `later` when the signal had been sent.
pub open spec fn signal_run<S, E>(
    children: Map<u128, Kind>,
    later: Map<u128, Kind>,
    t: Ticket,
    signal: Signal,
    id: Option<u32>,
    sent: Result<(), E>,
    status: Result<S, E>,
) -> (Option<Result<S, E>>, Change) {
    match SignalRequest::begun(children, t, signal) {
        Some(request) => match request.after(id) {
            Some(ready) => match ready.after(later, sent) {
                Some(Ok(waiting)) => (Some(status), waiting.change()),
                Some(Err(err)) => (Some(Err(err)), Change::Keep),
                None => (None, Change::Keep),
            },
            None => (None, Change::Keep),
        },
        None => (None, Change::Keep),
    }
}

/// A question whether a child has ended, from beginning to end.
pub open spec fn termination_run<E>(
    children: Map<u128, Kind>,
    t: Ticket,
    polled: Result<Option<ExitStatus>, E>,
) -> (Option<bool>, Change) {
    match TerminationCheck::begun(children, t) {
        Some(check) => (Some(seen_terminated(polled)), termination_change(check.ticket, polled)),
        None => (None, Change::Keep),
    }
}

/// A question whether a child has ended well, from beginning to end.
pub open spec fn success_run<E>(
    children: Map<u128, Kind>,
    t: Ticket,
    polled: Result<Option<ExitStatus>, E>,
) -> (Option<Result<bool, E>>, Change) {
    match SuccessCheck::begun(children, t) {
        Some(check) => (Some(seen_success(polled)), success_change(check.ticket, polled)),
        None => (None, Change::Keep),
    }
}

/// A question for the process identifier of a child, from beginning to end.
pub open spec fn pid_run(children: Map<u128, Kind>, t: Ticket, id: Option<u32>) -> Option<Pid> {
    match PidQuery::begun(children, t) {
        Some(_) => pid_of(id),
        None => None,
    }
}

/// With a ticket that leads to no child every operation replies `None` and
/// changes nothing.
pub proof fn law_unknown_ticket<S, E>(
    children: Map<u128, Kind>,
    later: Map<u128, Kind>,
    t: Ticket,
    signal: Signal,
    id: Option<u32>,
    done: Result<(), E>,
    status: Result<S, E>,
    polled: Result<Option<ExitStatus>, E>,
)
    requires
        children.get(t@) is None,
    ensures
        wait_run(children, t, status) == (None::<Result<S, E>>, Change::Keep),
        kill_run(children, t, done, status) == (None::<Result<S, E>>, Change::Keep),
        signal_run(children, later, t, signal, id, done, status) == (
            None::<Result<S, E>>,
            Change::Keep,
        ),
        termination_run(children, t, polled) == (None::<bool>, Change::Keep),
        success_run(children, t, polled) == (None::<Result<bool, E>>, Change::Keep),
        pid_run(children, t, id) is None,
{
}

/// A wait replies with the status of the child, and afterwards the ticket leads
/// to nothing, whatever has become of the garden in the meantime.
pub proof fn law_waited_child_is_gone<S, E>(
    children: Map<u128, Kind>,
    t: Ticket,
    status: Result<S, E>,
    meanwhile: Seq<Change>,
)
    requires
        children.get(t@) is Some,
    ensures
        wait_run(children, t, status).0 == Some(status),
        wait_run(children, t, status).1.apply(after_all(children, meanwhile)).get(t@) is None,
{
}

/// A kill that could be started is a wait; one that could not replies with the
/// error and leaves the garden alone.
pub proof fn law_kill_is_a_wait_or_nothing<S, E>(
    children: Map<u128, Kind>,
    t: Ticket,
    started: Result<(), E>,
    status: Result<S, E>,
)
    requires
        children.get(t@) is Some,
    ensures
        match started {
            Ok(_) => kill_run(children, t, started, status) == wait_run(children, t, status),
            Err(err) => kill_run(children, t, started, status) == (
                Some(Err::<S, E>(err)),
                Change::Keep,
            ),
        },
{
}

/// A signal needs a process identifier. Without one it is not sent, and the reply
/// is `None`; where sending it fails, the reply is the error: either way the
/// garden is left alone. A signal that was sent is followed by a wait, for the
/// child that the ticket leads to by then.
pub proof fn law_signal_is_a_wait_or_nothing<S, E>(
    children: Map<u128, Kind>,
    later: Map<u128, Kind>,
    t: Ticket,
    signal: Signal,
    id: Option<u32>,
    sent: Result<(), E>,
    status: Result<S, E>,
)
    requires
        children.get(t@) is Some,
    ensures
        match (pid_run(children, t, id), sent) {
            (None, _) => signal_run(children, later, t, signal, id, sent, status) == (
                None::<Result<S, E>>,
                Change::Keep,
            ),
            (Some(_), Err(err)) => signal_run(children, later, t, signal, id, sent, status) == (
                Some(Err::<S, E>(err)),
                Change::Keep,
            ),
            (Some(_), Ok(_)) => signal_run(children, later, t, signal, id, sent, status)
                == wait_run(later, t, status),
        },
{
}

/// The reply `true` to the question whether a child has ended, and no other,
/// goes with the child leaving the garden.
pub proof fn law_terminated_child_is_gone<E>(
    children: Map<u128, Kind>,
    t: Ticket,
    polled: Result<Option<ExitStatus>, E>,
    meanwhile: Seq<Change>,
)
    ensures
        match termination_run(children, t, polled) {
            (Some(true), change) => change.apply(after_all(children, meanwhile)).get(t@) is None,
            (_, change) => change.apply(after_all(children, meanwhile)) == after_all(
                children,
                meanwhile,
            ),
        },
{
}

/// A reply to the question whether a child has ended well, `true` or `false`,
/// goes with the child leaving the garden; an error leaves the garden alone.
pub proof fn law_judged_child_is_gone<E>(
    children: Map<u128, Kind>,
    t: Ticket,
    polled: Result<Option<ExitStatus>, E>,
    meanwhile: Seq<Change>,
)
    ensures
        match success_run(children, t, polled) {
            (Some(Ok(_)), change) => change.apply(after_all(children, meanwhile)).get(t@) is None,
            (_, change) => change.apply(after_all(children, meanwhile)) == after_all(
                children,
                meanwhile,
            ),
        },
{
}

/// Where a poll finds that the child ended, or fails, both questions do the same
/// to the garden. Where it finds the child running, only the question whether it
/// ended well lets the child go.
pub proof fn law_polls_differ_on_running_children<E>(
    t: Ticket,
    polled: Result<Option<ExitStatus>, E>,
)
    ensures
        termination_change(t, polled) == success_change(t, polled) <==> !(polled matches Ok(None)),
        seen_success(polled) == Ok::<bool, E>(true) ==> seen_terminated(polled),
{
}

/// No operation leaves a child in the garden that it has seen to end: not a poll
/// of either kind that found it ended, not a wait, not a kill that was started and
/// not a signal that was sent. Whatever has become of the garden since the
/// operation last looked, afterwards the ticket leads to nothing.
pub proof fn law_reaped_child_is_gone<S, E>(
    children: Map<u128, Kind>,
    later: Map<u128, Kind>,
    meanwhile: Seq<Change>,
    t: Ticket,
    signal: Signal,
    id: Option<u32>,
    done: Result<(), E>,
    status: Result<S, E>,
    polled: Result<Option<ExitStatus>, E>,
)
    requires
        children.get(t@) is Some,
    ensures
        seen_terminated(polled) ==> termination_run(children, t, polled).1.apply(
            after_all(children, meanwhile),
        ).get(t@) is None,
        seen_terminated(polled) ==> success_run(children, t, polled).1.apply(
            after_all(children, meanwhile),
        ).get(t@) is None,
        wait_run(children, t, status).1.apply(after_all(children, meanwhile)).get(t@) is None,
        done is Ok ==> kill_run(children, t, done, status).1.apply(
            after_all(children, meanwhile),
        ).get(t@) is None,
        done is Ok && pid_of(id) is Some && later.get(t@) is Some ==> signal_run(
            children,
            later,
            t,
            signal,
            id,
            done,
            status,
        ).1.apply(after_all(later, meanwhile)).get(t@) is None,
{
}

/// One whole operation on a garden, with what the operating system answered. No
/// other operation has a turn while it lasts.
pub enum Operation<S, E> {
    /// A child is put under a ticket.
    Put(Ticket, Kind),
    /// What stands under a ticket is removed.
    Remove(Ticket),
    /// It is asked whether a child has ended.
    HasTerminated(Ticket, Result<Option<ExitStatus>, E>),
    /// It is asked whether a child has ended well.
    Success(Ticket, Result<Option<ExitStatus>, E>),
    /// A child is waited for.
    Wait(Ticket, Result<S, E>),
    /// A child is killed and waited for.
    Kill(Ticket, Result<(), E>, Result<S, E>),
    /// A child is sent a signal and waited for.
    SendSignal(Ticket, Signal, Option<u32>, Result<(), E>, Result<S, E>),
}

impl<S, E> Operation<S, E> {
    /// What the operation does to these children.
    pub open spec fn change(self, children: Map<u128, Kind>) -> Change {
        match self {
            Operation::Put(t, kind) => Change::Put(t, kind),
            Operation::Remove(t) => Change::Remove(t),
            Operation::HasTerminated(t, polled) => termination_run(children, t, polled).1,
            Operation::Success(t, polled) => success_run(children, t, polled).1,
            Operation::Wait(t, status) => wait_run(children, t, status).1,
            Operation::Kill(t, started, status) => kill_run(children, t, started, status).1,
            Operation::SendSignal(t, signal, id, sent, status) => signal_run(
                children,
                children,
                t,
                signal,
                id,
                sent,
                status,
            ).1,
        }
    }

    /// The child that the operation reaps, if any: one that a poll finds ended, or
    /// whose status a wait gets.
    pub open spec fn reaps(self, children: Map<u128, Kind>) -> Option<Kind> {
        match self {
            Operation::Put(_, _) | Operation::Remove(_) => None,
            Operation::HasTerminated(t, polled) | Operation::Success(t, polled) =>
                if seen_terminated(polled) {
                    children.get(t@)
                } else {
                    None
                },
            Operation::Wait(t, status) => if status is Ok {
                children.get(t@)
            } else {
                None
            },
            Operation::Kill(t, started, status) => if started is Ok && status is Ok {
                children.get(t@)
            } else {
                None
            },
            Operation::SendSignal(t, _, id, sent, status) => if pid_of(id) is Some && sent is Ok
                && status is Ok {
                children.get(t@)
            } else {
                None
            },
        }
    }
}

/// The children of a garden, and all children that operations on it have reaped.
pub struct History {
    pub children: Map<u128, Kind>,
    pub reaped: Set<Kind>,
}

/// How things stand after these operations on a garden that was empty at first,
/// one operation after the other.
pub open spec fn history<S, E>(operations: Seq<Operation<S, E>>) -> History
    decreases operations.len(),
{
    if operations.len() == 0 {
        History { children: Map::empty(), reaped: Set::empty() }
    } else {
        let before = history(operations.drop_last());
        let operation = operations.last();
        History {
            children: operation.change(before.children).apply(before.children),
            reaped: match operation.reaps(before.children) {
                Some(kind) => before.reaped.insert(kind),
                None => before.reaped,
            },
        }
    }
}

/// Every child that is put into the garden is a new one: not yet in the garden and
/// not reaped.
pub open spec fn puts_are_new<S, E>(operations: Seq<Operation<S, E>>) -> bool {
    forall|i: int|
        0 <= i < operations.len() ==> (#[trigger] operations[i] matches Operation::Put(_, kind) ==> {
            let before = history(operations.take(i));
            !before.children.contains_value(kind) && !before.reaped.contains(kind)
        })
}

/// In a garden that began empty and got only new children, no child has been
/// reaped, and no child stands under two tickets.
pub proof fn law_no_reaped_child_in_the_garden<S, E>(operations: Seq<Operation<S, E>>)
    requires
        puts_are_new(operations),
    ensures
        forall|id: u128|
            #![trigger history(operations).children[id]]
            history(operations).children.contains_key(id) ==> !history(operations).reaped.contains(
                history(operations).children[id],
            ),
        forall|a: u128, b: u128|
            #![trigger history(operations).children[a], history(operations).children[b]]
            history(operations).children.contains_key(a) && history(
                operations,
            ).children.contains_key(b) && a != b ==> history(operations).children[a] != history(
                operations,
            ).children[b],
    decreases operations.len(),
{
    if operations.len() > 0 {
        let earlier = operations.drop_last();
        assert(puts_are_new(earlier)) by {
            assert forall|i: int| 0 <= i < earlier.len() implies (#[trigger] earlier[i] matches
                Operation::Put(_, kind) ==> {
                let before = history(earlier.take(i));
                !before.children.contains_value(kind) && !before.reaped.contains(kind)
            }) by {
                assert(earlier[i] == operations[i]);
                assert(earlier.take(i) =~= operations.take(i));
            }
        }
        law_no_reaped_child_in_the_garden(earlier);
        let before = history(earlier);
        assert(operations.take(operations.len() - 1) =~= earlier);
        assert(operations[operations.len() - 1] == operations.last());
        assert(operations.last() matches Operation::Put(_, kind) ==> forall|id: u128|
            before.children.contains_key(id) ==> #[trigger] before.children[id] != kind);
    }
}

/// A ticket leads to a process identifier exactly where it leads to a child: in a
/// garden that began empty and got only new children, after any operations that
/// did not overlap. The operating system has a number for a child until the
/// child is reaped; it is taken to be in the range of process identifiers.
pub proof fn law_children_have_identifiers<S, E>(
    operations: Seq<Operation<S, E>>,
    t: Ticket,
    id: Option<u32>,
)
    requires
        puts_are_new(operations),
        history(operations).children.get(t@) matches Some(kind) ==> (id is None <==> history(
            operations,
        ).reaped.contains(kind)),
        id matches Some(id) ==> id <= i32::MAX,
    ensures
        pid_run(history(operations).children, t, id) is Some <==> history(operations).children.get(
            t@,
        ) is Some,
{
    law_no_reaped_child_in_the_garden(operations);
    let children = history(operations).children;
    if children.contains_key(t@) {
        assert(!history(operations).reaped.contains(children[t@]));
    }
}

/// A child under a ticket is started once: as long as no change concerns the
/// ticket, it is not free, so whoever asks again may not start another. They get
/// the same child, and the garden stays as it is.
pub proof fn law_inserted_child_is_shared<
    E,
    F: FnOnce() -> Result<Spawned, E>,
    G: FnOnce() -> Result<Spawned, E>,
>(
    first: Map<u128, Kind>,
    second: Map<u128, Kind>,
    third: Map<u128, Kind>,
    meanwhile: Seq<Change>,
    t: Ticket,
    f: F,
    g: G,
    kind: Kind,
    again: Result<Kind, E>,
)
    requires
        got_or_inserted(first, t, f, Ok::<Kind, E>(kind), second),
        last_change(meanwhile, t) is None,
        got_or_inserted(after_all(second, meanwhile), t, g, again, third),
    ensures
        second.get(t@) == Some(kind),
        !is_free(after_all(second, meanwhile), t),
        again == Ok::<Kind, E>(kind),
        third == after_all(second, meanwhile),
{
    law_last_change_decides(second, meanwhile, t);
}

/// Two callers that ask for a child under the same free ticket share one. One of
/// them has its turn first, here either; other changes may come between, but none
/// that concerns the ticket. Where the child of the first can be started, the
/// ticket is free in exactly one of the two turns, the first: so exactly one of
/// `f` and `g` may be called, the child is one that this one started, and both
/// callers get it.
pub proof fn law_two_callers_share_one_child<
    E,
    F: FnOnce() -> Result<Spawned, E>,
    G: FnOnce() -> Result<Spawned, E>,
>(
    children: Map<u128, Kind>,
    between: Map<u128, Kind>,
    meanwhile: Seq<Change>,
    end: Map<u128, Kind>,
    t: Ticket,
    f: F,
    g: G,
    f_first: bool,
    from_f: Result<Kind, E>,
    from_g: Result<Kind, E>,
)
    requires
        is_free(children, t),
        last_change(meanwhile, t) is None,
        if f_first {
            &&& got_or_inserted(children, t, f, from_f, between)
            &&& from_f is Ok
            &&& got_or_inserted(after_all(between, meanwhile), t, g, from_g, end)
        } else {
            &&& got_or_inserted(children, t, g, from_g, between)
            &&& from_g is Ok
            &&& got_or_inserted(after_all(between, meanwhile), t, f, from_f, end)
        },
    ensures
        !is_free(after_all(between, meanwhile), t),
        from_f matches Ok(kind) && from_g == Ok::<Kind, E>(kind) && end.get(t@) == Some(kind) && (if f_first {
            exists|spawned: Spawned| #[trigger]
                f.ensures((), Ok::<Spawned, E>(spawned)) && kind.made_of(spawned)
        } else {
            exists|spawned: Spawned| #[trigger]
                g.ensures((), Ok::<Spawned, E>(spawned)) && kind.made_of(spawned)
        }),
        end == after_all(between, meanwhile),
{
    law_last_change_decides(between, meanwhile, t);
}

/// Where the child of the first caller cannot be started, the ticket is as free
/// as it was, and the next caller may start one.
pub proof fn law_failed_start_leaves_the_ticket_free<E, F: FnOnce() -> Result<Spawned, E>>(
    children: Map<u128, Kind>,
    t: Ticket,
    f: F,
    err: E,
    after: Map<u128, Kind>,
)
    requires
        got_or_inserted(children, t, f, Err::<Kind, E>(err), after),
    ensures
        is_free(children, t),
        after == children,
{
}

} // verus!
