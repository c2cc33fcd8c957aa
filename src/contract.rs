use vstd::prelude::*;

use crate::error::ContractError;
use crate::ledger::{
    copy_ledger, draw_winner, holder_count, landing_position, lemma_landing_unique,
    lemma_without_user, ledger_total, take_out_holder,
};
use crate::phase::{legal_move, LottoState, TTL_1_5_DAYS, TTL_7_DAYS};
use crate::storage::{
    admin_exists, check_state, extend_state_ttl, gate, get_currency, init, set_currency, set_state,
};
use crate::ticket::{
    count, holds_ticket, lemma_stake_bounds, lemma_total_bounds, stake, total, without_user,
    Address, Ticket, TicketSize,
};

verus! {

/// The lottery's whole durable state, handed to every operation.
///
/// `tickets` holds every stake that has not been refunded yet; `entries` is
/// the snapshot of the stakes that went into the venue this round, which
/// weighs the draw. Stakes left unclaimed when a round ends stay in
/// `tickets` and go into the next round's pool.
pub struct Contract {
    pub admin: Option<Address>,
    pub currency: Option<Address>,
    pub state: Option<LottoState>,
    /// The expiry, in ledgers, that the last phase write asked for. The
    /// storage underneath may keep the record longer than this.
    pub state_ttl: u32,
    pub tickets: Vec<Ticket>,
    pub entries: Vec<Ticket>,
    /// Principal that went into the venue this round.
    pub principal: i128,
    /// What came back from the venue this round, principal and yield.
    pub withdrawn: i128,
    /// Principal refunded to claimants this round.
    pub refunded: i128,
}

/// What the round's winner is paid: the harvest above the principal, if any.
pub open spec fn prize(c: Contract) -> int {
    if c.withdrawn >= c.principal {
        c.withdrawn - c.principal
    } else {
        0
    }
}

/// `init` succeeds exactly when no admin is stored yet.
pub open spec fn init_outcome(pre: Contract) -> Result<(), ContractError> {
    if pre.admin is Some {
        Err(ContractError::AlreadyInitialized)
    } else {
        Ok(())
    }
}

/// A successful `init` stores admin and currency and opens at `Ended`; a refused one changes nothing.
pub open spec fn init_effect(pre: Contract, admin: Address, currency: Address, post: Contract) -> bool {
    if pre.admin is Some {
        post == pre
    } else {
        post == (Contract {
            admin: Some(admin),
            currency: Some(currency),
            state: Some(LottoState::Ended),
            state_ttl: TTL_1_5_DAYS,
            ..pre
        })
    }
}

/// A sale opens only from `Ended`.
pub open spec fn start_sale_outcome(pre: Contract) -> Result<(), ContractError> {
    match gate(pre, LottoState::Ended) {
        Ok(_) => Ok(()),
        Err(e) => Err(e),
    }
}

/// Opening a sale starts a fresh round: no entries, no principal out, nothing refunded.
pub open spec fn start_sale_effect(pre: Contract, post: Contract) -> bool {
    if start_sale_outcome(pre) is Ok {
        &&& post.entries@.len() == 0
        &&& post == (Contract {
            state: Some(LottoState::Sale),
            state_ttl: TTL_1_5_DAYS,
            entries: post.entries,
            principal: 0,
            withdrawn: 0,
            refunded: 0,
            ..pre
        })
    } else {
        post == pre
    }
}

/// A purchase goes through in `Sale`, with a currency set, when its price was pulled.
pub open spec fn buy_outcome(pre: Contract, pulled: bool) -> Result<(), ContractError> {
    match gate(pre, LottoState::Sale) {
        Err(e) => Err(e),
        Ok(_) => if pre.currency is None {
            Err(ContractError::NoStateFound)
        } else if !pulled {
            Err(ContractError::TransferFailed)
        } else {
            Ok(())
        },
    }
}

/// A purchase is recorded exactly when it was paid for, and changes nothing else.
pub open spec fn buy_effect(
    pre: Contract,
    user: Address,
    size: TicketSize,
    pulled: bool,
    post: Contract,
) -> bool {
    if buy_outcome(pre, pulled) is Ok {
        &&& post.tickets@ == pre.tickets@.push(Ticket { user, size })
        &&& post == (Contract { tickets: post.tickets, ..pre })
    } else {
        post == pre
    }
}

/// The deposit goes through in `Sale` when the venue took the pool; it returns the principal.
pub open spec fn deposit_outcome(pre: Contract, deposited: bool) -> Result<i128, ContractError> {
    match gate(pre, LottoState::Sale) {
        Err(e) => Err(e),
        Ok(_) => if !deposited {
            Err(ContractError::VenueError)
        } else {
            Ok(total(pre.tickets@) as i128)
        },
    }
}

/// A deposit fixes the round's principal and the stakes that weigh the draw.
pub open spec fn deposit_effect(pre: Contract, deposited: bool, post: Contract) -> bool {
    if deposit_outcome(pre, deposited) is Ok {
        &&& post.entries@ == pre.tickets@
        &&& post == (Contract {
            state: Some(LottoState::Yielding),
            state_ttl: TTL_7_DAYS,
            entries: post.entries,
            principal: total(pre.tickets@) as i128,
            withdrawn: 0,
            refunded: 0,
            ..pre
        })
    } else {
        post == pre
    }
}

/// The withdrawal goes through in `Yielding` when the venue gave something back.
pub open spec fn withdraw_outcome(pre: Contract, received: Option<i128>) -> Result<
    i128,
    ContractError,
> {
    match gate(pre, LottoState::Yielding) {
        Err(e) => Err(e),
        Ok(_) => match received {
            None => Err(ContractError::VenueError),
            Some(x) => Ok(x),
        },
    }
}

/// A withdrawal records what came back and opens the payback; when the
/// round had no stake there is nothing to pay back, and it opens the draw.
pub open spec fn withdraw_effect(pre: Contract, received: Option<i128>, post: Contract) -> bool {
    match withdraw_outcome(pre, received) {
        Ok(x) => post == (Contract {
            state: Some(
                if total(pre.entries@) == 0 {
                    LottoState::Raffle
                } else {
                    LottoState::Payback
                },
            ),
            state_ttl: TTL_1_5_DAYS,
            withdrawn: x,
            ..pre
        }),
        Err(_) => post == pre,
    }
}

/// Claims are taken in `Payback` and, once the first has moved the phase on, in `Raffle`.
pub open spec fn claim_outcome(pre: Contract, user: Address, paid: bool) -> Result<
    i128,
    ContractError,
> {
    match pre.state {
        None => Err(ContractError::NoStateFound),
        Some(p) => if p != LottoState::Payback && p != LottoState::Raffle {
            Err(ContractError::WrongPhase)
        } else if !holds_ticket(pre.tickets@, user) {
            Err(ContractError::NoTicket)
        } else if !paid {
            Err(ContractError::TransferFailed)
        } else {
            Ok(stake(pre.tickets@, user) as i128)
        },
    }
}

/// A refund clears the holder's tickets, adds their stake to what was refunded,
/// and leaves the phase at `Raffle`.
pub open spec fn claim_effect(pre: Contract, user: Address, paid: bool, post: Contract) -> bool {
    if claim_outcome(pre, user, paid) is Ok {
        &&& post.tickets@ == without_user(pre.tickets@, user)
        &&& post == (Contract {
            state: Some(LottoState::Raffle),
            state_ttl: if pre.state == Some(LottoState::Payback) {
                TTL_1_5_DAYS
            } else {
                pre.state_ttl
            },
            tickets: post.tickets,
            refunded: (pre.refunded + stake(pre.tickets@, user)) as i128,
            ..pre
        })
    } else {
        post == pre
    }
}

/// The draw goes through in `Raffle` when the round has stake and the prize was paid.
pub open spec fn draw_outcome(pre: Contract, seed: u64, paid: bool) -> Result<
    (Address, i128),
    ContractError,
> {
    match gate(pre, LottoState::Raffle) {
        Err(e) => Err(e),
        Ok(_) => if total(pre.entries@) == 0 {
            Err(ContractError::NoParticipants)
        } else if !paid {
            Err(ContractError::TransferFailed)
        } else {
            Ok((draw_winner(pre.entries@, seed), prize(pre) as i128))
        },
    }
}

/// A draw, or one without any stake, ends the round; any other failure changes nothing.
pub open spec fn draw_effect(pre: Contract, seed: u64, paid: bool, post: Contract) -> bool {
    match draw_outcome(pre, seed, paid) {
        Ok(_) | Err(ContractError::NoParticipants) => post == (Contract {
            state: Some(LottoState::Ended),
            state_ttl: TTL_1_5_DAYS,
            ..pre
        }),
        Err(_) => post == pre,
    }
}

impl Contract {
    /// Bookkeeping that holds while the pool is out or being paid back:
    /// what was refunded and what is still owed add up to the principal.
    pub open spec fn wf(self) -> bool {
        &&& self.principal >= 0
        &&& match self.state {
            Some(LottoState::Yielding) | Some(LottoState::Payback) | Some(LottoState::Raffle) => {
                &&& self.refunded >= 0
                &&& self.refunded + total(self.tickets@) == self.principal
            },
            _ => true,
        }
    }

    /// Whether the bookkeeping invariant holds, for state loaded from outside.
    pub fn is_wf(&self) -> (r: bool)
        ensures
            r == self.wf(),
    {
        if self.principal < 0 {
            return false;
        }
        match self.state {
            Some(LottoState::Yielding) | Some(LottoState::Payback) | Some(LottoState::Raffle) => {
                let outstanding = ledger_total(&self.tickets);
                self.refunded >= 0 && self.principal - self.refunded == outstanding
            },
            _ => true,
        }
    }

    /// A fresh deployment: nothing stored yet.
    pub fn new() -> (r: Contract)
        ensures
            r.admin is None,
            r.currency is None,
            r.state is None,
            r.tickets@.len() == 0,
            r.entries@.len() == 0,
            r.principal == 0,
            r.withdrawn == 0,
            r.refunded == 0,
            r.wf(),
    {
        Contract {
            admin: None,
            currency: None,
            state: None,
            state_ttl: 0,
            tickets: Vec::new(),
            entries: Vec::new(),
            principal: 0,
            withdrawn: 0,
            refunded: 0,
        }
    }

    /// Sets the admin and the currency once, and opens the lifecycle at `Ended`.
    pub fn init(&mut self, admin: Address, currency: Address) -> (r: Result<(), ContractError>)
        requires
            old(self).wf(),
        ensures
            r == init_outcome(*old(self)),
            init_effect(*old(self), admin, currency, *final(self)),
            final(self).wf(),
    {
        if admin_exists(self) {
            return Err(ContractError::AlreadyInitialized);
        }
        init(self, &admin);
        let _ = set_state(self, LottoState::Ended);
        extend_state_ttl(self, TTL_1_5_DAYS);
        let _ = set_currency(self, currency);
        Ok(())
    }

    /// Opens a new round's sale.
    pub fn start_sale(&mut self) -> (r: Result<(), ContractError>)
        requires
            old(self).wf(),
        ensures
            r == start_sale_outcome(*old(self)),
            start_sale_effect(*old(self), *final(self)),
            legal_move(old(self).state, final(self).state),
            final(self).wf(),
    {
        check_state(self, LottoState::Ended)?;
        let _ = set_state(self, LottoState::Sale);
        extend_state_ttl(self, TTL_1_5_DAYS);
        self.entries = Vec::new();
        self.principal = 0;
        self.withdrawn = 0;
        self.refunded = 0;
        Ok(())
    }

    /// Records a ticket of `size` for `user`; `pulled` tells whether the
    /// transfer of its price into the pool went through.
    pub fn buy_ticket(&mut self, user: Address, size: TicketSize, pulled: bool) -> (r: Result<
        (),
        ContractError,
    >)
        requires
            old(self).wf(),
        ensures
            r == buy_outcome(*old(self), pulled),
            buy_effect(*old(self), user, size, pulled, *final(self)),
            total(final(self).tickets@) == total(old(self).tickets@) + if r is Ok {
                size.spec_amount()
            } else {
                0
            },
            legal_move(old(self).state, final(self).state),
            final(self).wf(),
    {
        check_state(self, LottoState::Sale)?;
        get_currency(self)?;
        if !pulled {
            return Err(ContractError::TransferFailed);
        }
        self.tickets.push(Ticket { user, size });
        proof {
            assert(self.tickets@.drop_last() == old(self).tickets@);
        }
        Ok(())
    }

    /// Moves the pool into the venue; `deposited` tells whether the venue took it.
    /// Returns the principal deposited.
    pub fn deposit_to_blend(&mut self, deposited: bool) -> (r: Result<i128, ContractError>)
        requires
            old(self).wf(),
        ensures
            r == deposit_outcome(*old(self), deposited),
            deposit_effect(*old(self), deposited, *final(self)),
            legal_move(old(self).state, final(self).state),
            final(self).wf(),
    {
        check_state(self, LottoState::Sale)?;
        if !deposited {
            return Err(ContractError::VenueError);
        }
        let pool = ledger_total(&self.tickets);
        proof {
            lemma_total_bounds(self.tickets@);
        }
        let snapshot = copy_ledger(&self.tickets);
        let _ = set_state(self, LottoState::Yielding);
        extend_state_ttl(self, TTL_7_DAYS);
        self.entries = snapshot;
        self.principal = pool;
        self.withdrawn = 0;
        self.refunded = 0;
        Ok(pool)
    }

    /// Takes the pool back from the venue; `received` is what came back, or
    /// `None` where the venue refused. A round without stake has nobody to
    /// pay back and goes straight on to the draw.
    pub fn withdraw_from_blend(&mut self, received: Option<i128>) -> (r: Result<
        i128,
        ContractError,
    >)
        requires
            old(self).wf(),
        ensures
            r == withdraw_outcome(*old(self), received),
            withdraw_effect(*old(self), received, *final(self)),
            legal_move(old(self).state, final(self).state),
            final(self).wf(),
    {
        check_state(self, LottoState::Yielding)?;
        match received {
            None => Err(ContractError::VenueError),
            Some(x) => {
                let stake_in_round = ledger_total(&self.entries);
                if stake_in_round == 0 {
                    let _ = set_state(self, LottoState::Raffle);
                } else {
                    let _ = set_state(self, LottoState::Payback);
                }
                extend_state_ttl(self, TTL_1_5_DAYS);
                self.withdrawn = x;
                Ok(x)
            },
        }
    }

    /// Refunds `user`'s whole stake and clears their tickets; `paid` tells
    /// whether the refund transfer went through. The first refund of a round
    /// moves the phase from `Payback` to `Raffle`. Returns the amount refunded.
    pub fn claim_ticket(&mut self, user: Address, paid: bool) -> (r: Result<i128, ContractError>)
        requires
            old(self).wf(),
        ensures
            r == claim_outcome(*old(self), user, paid),
            claim_effect(*old(self), user, paid, *final(self)),
            legal_move(old(self).state, final(self).state),
            final(self).wf(),
    {
        let phase = match self.state {
            None => {
                return Err(ContractError::NoStateFound);
            },
            Some(p) => p,
        };
        if phase != LottoState::Payback && phase != LottoState::Raffle {
            return Err(ContractError::WrongPhase);
        }
        let (rest, refund) = take_out_holder(&self.tickets, user);
        proof {
            lemma_stake_bounds(old(self).tickets@, user);
            lemma_without_user(old(self).tickets@, user, user);
        }
        if refund == 0 {
            return Err(ContractError::NoTicket);
        }
        if !paid {
            return Err(ContractError::TransferFailed);
        }
        if phase == LottoState::Payback {
            let _ = set_state(self, LottoState::Raffle);
            extend_state_ttl(self, TTL_1_5_DAYS);
        }
        self.tickets = rest;
        self.refunded = self.refunded + refund;
        Ok(refund)
    }

    /// Draws the round's winner with `seed`, stakes weighing the odds, and
    /// closes the round; `paid` tells whether the prize transfer went through.
    /// With no stake in the round the phase still moves to `Ended`.
    pub fn winner_chicken_dinner(&mut self, seed: u64, paid: bool) -> (r: Result<
        (Address, i128),
        ContractError,
    >)
        requires
            old(self).wf(),
        ensures
            r == draw_outcome(*old(self), seed, paid),
            draw_effect(*old(self), seed, paid, *final(self)),
            legal_move(old(self).state, final(self).state),
            final(self).wf(),
    {
        check_state(self, LottoState::Raffle)?;
        let weight = ledger_total(&self.entries);
        proof {
            lemma_total_bounds(self.entries@);
        }
        if weight == 0 {
            let _ = set_state(self, LottoState::Ended);
            extend_state_ttl(self, TTL_1_5_DAYS);
            return Err(ContractError::NoParticipants);
        }
        if !paid {
            return Err(ContractError::TransferFailed);
        }
        let winner = self.pick(seed);
        let amount = self.prize();
        let _ = set_state(self, LottoState::Ended);
        extend_state_ttl(self, TTL_1_5_DAYS);
        Ok((winner, amount))
    }

    /// Holder of the ticket that `seed` lands on among the round's stakes.
    pub fn pick(&self, seed: u64) -> (r: Address)
        requires
            total(self.entries@) > 0,
        ensures
            r == draw_winner(self.entries@, seed),
    {
        let weight = ledger_total(&self.entries);
        let target = (seed as i128) % weight;
        let i = landing_position(&self.entries, target);
        proof {
            let s = self.entries@;
            let t = seed as int % total(s);
            assert(crate::ledger::lands_on(s, t, i as int));
            let j = choose|j: int| #[trigger] crate::ledger::lands_on(s, t, j);
            lemma_landing_unique(s, t, i as int, j);
        }
        self.entries[i].user
    }

    /// The prize the round's winner is owed.
    pub fn prize(&self) -> (r: i128)
        requires
            self.wf(),
        ensures
            r == prize(*self),
    {
        if self.withdrawn >= self.principal {
            self.withdrawn - self.principal
        } else {
            0
        }
    }

    /// The draw that `seed` would make now: winner and prize, or `None` with no stake.
    pub fn draw(&self, seed: u64) -> (r: Option<(Address, i128)>)
        requires
            self.wf(),
        ensures
            r == if total(self.entries@) > 0 {
                Some((draw_winner(self.entries@, seed), prize(*self) as i128))
            } else {
                None::<(Address, i128)>
            },
    {
        let weight = ledger_total(&self.entries);
        proof {
            lemma_total_bounds(self.entries@);
        }
        if weight == 0 {
            return None;
        }
        Some((self.pick(seed), self.prize()))
    }

    /// Principal currently held for all participants.
    pub fn pool(&self) -> (r: i128)
        ensures
            r == total(self.tickets@),
    {
        ledger_total(&self.tickets)
    }

    /// Principal currently held for `user`.
    pub fn stake_of(&self, user: Address) -> (r: i128)
        ensures
            r == stake(self.tickets@, user),
    {
        take_out_holder(&self.tickets, user).1
    }

    /// Number of tickets `user` currently holds.
    pub fn ticket_count(&self, user: Address) -> (r: usize)
        ensures
            r == count(self.tickets@, user),
    {
        holder_count(&self.tickets, user)
    }
}

} // verus!
