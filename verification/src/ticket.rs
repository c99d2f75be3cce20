//! Tickets: what a caller shows to get back to a child.
use crate::outside::{draw, drawn, is_random_uuid};
use vstd::prelude::*;

verus! {

/// Names one child of a garden. A ticket is a UUID, held as its big-endian
/// number: so tickets compare as the bytes of the UUID do.
#[derive(Clone, Copy, Hash, PartialEq, Eq, PartialOrd, Ord, Debug, Structural)]
pub struct Ticket(u128);

impl View for Ticket {
    type V = u128;

    closed spec fn view(&self) -> u128 {
        self.0
    }
}

impl Ticket {
    /// The ticket that the UUID with this number stands for.
    pub fn from_u128(id: u128) -> (ticket: Ticket)
        ensures
            ticket@ == id,
    {
        Ticket(id)
    }

    /// The number of the UUID.
    pub fn as_u128(&self) -> (id: u128)
        ensures
            id == self@,
    {
        self.0
    }

    /// A ticket for a new child: a random (version 4) UUID.
    pub(crate) fn random() -> (ticket: Ticket)
        ensures
            drawn(ticket@),
            is_random_uuid(ticket@),
    {
        Ticket(draw())
    }
}

/// Two tickets with the same number are the same ticket.
pub proof fn law_ticket_is_its_number(a: Ticket, b: Ticket)
    requires
        a@ == b@,
    ensures
        a == b,
{
}

/// Every number is that of a ticket.
pub proof fn lemma_ticket_of(id: u128) -> (ticket: Ticket)
    ensures
        ticket@ == id,
{
    Ticket(id)
}

} // verus!
