//! Children that are named by something that carries a ticket, such as a request.
use crate::garden::Kindergarten;
use crate::kind::{Kind, Spawned};
use crate::ticket::Ticket;
use vstd::prelude::*;

verus! {

/// Something that can provide a ticket, usually something that was extracted
/// from a request.
pub trait ChildProcess {
    fn ticket(&self) -> Ticket;
}

/// Access to the child that a provider's ticket leads to.
pub struct ChildAccess<T: ChildProcess> {
    pub provider: T,
}

impl<T: ChildProcess> ChildAccess<T> {
    /// The provider may have returned this ticket.
    pub open spec fn may_name(&self, ticket: Ticket) -> bool {
        call_ensures(T::ticket, (&self.provider,), ticket)
    }

    /// Gets a handle to the child in this garden.
    pub fn get(&self, garden: &Kindergarten) -> (kind: Option<Kind>)
        ensures
            exists|t: Ticket| #[trigger] self.may_name(t) && kind == garden@.get(t@),
            exists|t: Ticket| #[trigger]
                call_ensures(T::ticket, (&self.provider,), t) && kind == garden@.get(t@),
    {
        let t = self.provider.ticket();
        assert(self.may_name(t));
        garden.get(t)
    }

    /// Returns the child in this garden, or, only where there is none, starts one
    /// with `f` and puts it there. Since starting a child can fail, so can this.
    pub fn get_or_spawn_with<E, F: FnOnce() -> Result<Spawned, E>>(
        &self,
        garden: &mut Kindergarten,
        f: F,
    ) -> (kind: Result<Kind, E>)
        requires
            forall|t: Ticket| #[trigger]
                self.may_name(t) && crate::garden::is_free(old(garden)@, t) ==> f.requires(()),
            forall|t: Ticket, spawned: Spawned|
                #![trigger self.may_name(t), f.ensures((), Ok::<Spawned, E>(spawned))]
                self.may_name(t) && crate::garden::is_free(old(garden)@, t) && f.ensures(
                    (),
                    Ok::<Spawned, E>(spawned),
                ) ==> spawned.piped(),
        ensures
            exists|t: Ticket| #[trigger]
                self.may_name(t) && crate::garden::got_or_inserted(
                    old(garden)@,
                    t,
                    f,
                    kind,
                    final(garden)@,
                ),
            exists|t: Ticket| #[trigger]
                call_ensures(T::ticket, (&self.provider,), t) && crate::garden::got_or_inserted(
                    old(garden)@,
                    t,
                    f,
                    kind,
                    final(garden)@,
                ),
    {
        let t = self.provider.ticket();
        assert(self.may_name(t));
        garden.get_or_insert_with(t, f)
    }
}

} // verus!
