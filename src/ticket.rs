use vstd::prelude::*;

verus! {

/// Identity of a participant, an administrator or a token contract.
#[derive(Clone, Copy, PartialEq, Eq, Structural, Debug)]
pub struct Address {
    pub id: u64,
}

/// The three stake classes a ticket can be bought in.
#[derive(Clone, Copy, PartialEq, Eq, Structural, Debug)]
pub enum TicketSize {
    Small,
    Medium,
    Large,
}

/// Price of one ticket of each class, in the currency's smallest unit.
pub const SMALL_AMOUNT: i128 = 10_000_000;
pub const MEDIUM_AMOUNT: i128 = 100_000_000;
pub const LARGE_AMOUNT: i128 = 1_000_000_000;

impl TicketSize {
    pub open spec fn spec_amount(self) -> int {
        match self {
            TicketSize::Small => 10_000_000,
            TicketSize::Medium => 100_000_000,
            TicketSize::Large => 1_000_000_000,
        }
    }

    /// The fixed stake of a ticket of this class.
    pub fn amount(&self) -> (r: i128)
        ensures
            r == self.spec_amount(),
    {
        match self {
            TicketSize::Small => SMALL_AMOUNT,
            TicketSize::Medium => MEDIUM_AMOUNT,
            TicketSize::Large => LARGE_AMOUNT,
        }
    }
}

/// One purchase: who bought it and in which class.
#[derive(Clone, Copy, PartialEq, Eq, Structural, Debug)]
pub struct Ticket {
    pub user: Address,
    pub size: TicketSize,
}

/// Largest stake a single ticket can carry.
pub open spec fn max_ticket_amount() -> int {
    1_000_000_000
}

/// Sum of the stakes of all tickets in `s`.
pub open spec fn total(s: Seq<Ticket>) -> int
    decreases s.len(),
{
    if s.len() == 0 {
        0
    } else {
        total(s.drop_last()) + s.last().size.spec_amount()
    }
}

/// Sum of the stakes that `u` holds in `s`.
pub open spec fn stake(s: Seq<Ticket>, u: Address) -> int
    decreases s.len(),
{
    if s.len() == 0 {
        0
    } else {
        stake(s.drop_last(), u) + if s.last().user == u {
            s.last().size.spec_amount()
        } else {
            0
        }
    }
}

/// Number of tickets that `u` holds in `s`.
pub open spec fn count(s: Seq<Ticket>, u: Address) -> nat
    decreases s.len(),
{
    if s.len() == 0 {
        0
    } else {
        count(s.drop_last(), u) + if s.last().user == u {
            1nat
        } else {
            0nat
        }
    }
}

/// Whether `u` holds at least one ticket in `s`.
pub open spec fn holds_ticket(s: Seq<Ticket>, u: Address) -> bool {
    exists|i: int| 0 <= i < s.len() && #[trigger] s[i].user == u
}

/// `s` with every ticket of `u` taken out, the others in their order.
pub open spec fn without_user(s: Seq<Ticket>, u: Address) -> Seq<Ticket>
    decreases s.len(),
{
    if s.len() == 0 {
        s
    } else {
        let rest = without_user(s.drop_last(), u);
        if s.last().user == u {
            rest
        } else {
            rest.push(s.last())
        }
    }
}

/// A ledger's total is bounded by the largest stake times its length.
pub proof fn lemma_total_bounds(s: Seq<Ticket>)
    ensures
        0 <= total(s) <= max_ticket_amount() * s.len(),
    decreases s.len(),
{
    if s.len() > 0 {
        lemma_total_bounds(s.drop_last());
    }
}

/// A holder's stake lies between nothing and the ledger's total.
pub proof fn lemma_stake_bounds(s: Seq<Ticket>, u: Address)
    ensures
        0 <= stake(s, u) <= total(s),
        holds_ticket(s, u) <==> count(s, u) > 0,
        holds_ticket(s, u) <==> stake(s, u) > 0,
    decreases s.len(),
{
    if s.len() > 0 {
        let p = s.drop_last();
        lemma_stake_bounds(p, u);
        if holds_ticket(p, u) {
            let i = choose|i: int| 0 <= i < p.len() && #[trigger] p[i].user == u;
            assert(s[i].user == u);
        }
        if holds_ticket(s, u) && s.last().user != u {
            let i = choose|i: int| 0 <= i < s.len() && #[trigger] s[i].user == u;
            assert(p[i].user == u);
        }
        if s.last().user == u {
            assert(s[s.len() - 1].user == u);
        }
    }
}

} // verus!
