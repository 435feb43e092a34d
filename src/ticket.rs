use vstd::prelude::*;

verus! {

/// Length in bytes of every ticket the policy issues.
pub const TICKET_LEN: usize = 16300;

/// The session-ticket policy the TLS layer consults.
///
/// Ticket issuance is on and tickets are advertised as never expiring, but
/// every issued ticket is a block of zero bytes that carries no session
/// state, and no ticket is ever accepted back: a client that presents one
/// always goes through a full handshake.
pub struct TicketProducer;

/// The ticket issued for a serialized session state.
pub open spec fn issued_ticket(plain: Seq<u8>) -> Seq<u8> {
    Seq::new(TICKET_LEN as nat, |i: int| 0u8)
}

/// The session state recovered from a presented ticket, if any.
pub open spec fn opened_ticket(cipher: Seq<u8>) -> Option<Seq<u8>> {
    None
}

impl TicketProducer {
    /// Whether ticket-based resumption is offered at all.
    pub fn enabled(&self) -> (r: bool)
        ensures
            r,
    {
        true
    }

    /// Advertised ticket lifetime in seconds: the largest value there is.
    pub fn lifetime(&self) -> (r: u32)
        ensures
            r == u32::MAX,
    {
        u32::MAX
    }

    /// Issues a ticket for `plain`; the state itself is not kept in it.
    pub fn encrypt(&self, plain: &[u8]) -> (r: Option<Vec<u8>>)
        ensures
            r is Some,
            r->Some_0@ == issued_ticket(plain@),
    {
        let mut ticket: Vec<u8> = Vec::new();
        let mut i: usize = 0;
        while i < TICKET_LEN
            invariant
                i <= TICKET_LEN,
                ticket@ == Seq::new(i as nat, |j: int| 0u8),
            decreases TICKET_LEN - i,
        {
            ticket.push(0u8);
            i = i + 1;
            assert(ticket@ =~= Seq::new(i as nat, |j: int| 0u8));
        }
        assert(ticket@ =~= issued_ticket(plain@));
        Some(ticket)
    }

    /// Opens a presented ticket: no ticket is ever accepted.
    pub fn decrypt(&self, cipher: &[u8]) -> (r: Option<Vec<u8>>)
        ensures
            r is None,
            r is Some <==> opened_ticket(cipher@) is Some,
    {
        None
    }
}

/// A ticket issued for any session state never opens again, so resumption
/// always falls back to a full handshake.
pub proof fn lemma_issued_ticket_never_resumes(plain: Seq<u8>)
    ensures
        opened_ticket(issued_ticket(plain)) is None,
        issued_ticket(plain).len() == TICKET_LEN,
{
}

/// Issued tickets do not depend on the session state they were issued for.
pub proof fn lemma_tickets_ignore_state(a: Seq<u8>, b: Seq<u8>)
    ensures
        issued_ticket(a) == issued_ticket(b),
{
}

} // verus!
