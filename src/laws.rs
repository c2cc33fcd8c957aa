use vstd::prelude::*;

use crate::contract::{
    buy_effect, buy_outcome, claim_effect, claim_outcome, deposit_effect, deposit_outcome,
    draw_effect, draw_outcome, init_effect, prize, init_outcome, start_sale_effect, start_sale_outcome,
    withdraw_effect, withdraw_outcome, Contract,
};
use crate::error::ContractError;
use crate::ledger::lemma_without_user;
use crate::ticket::{total, Address, Ticket, TicketSize};

verus! {

/// Sum of the prices of the first `n` purchases that went through.
pub open spec fn recorded_pulls(
    states: Seq<Contract>,
    buys: Seq<(Address, TicketSize, bool)>,
    n: nat,
) -> int
    decreases n,
{
    if n == 0 {
        0
    } else {
        let k = n - 1;
        recorded_pulls(states, buys, k as nat) + if buy_outcome(states[k], buys[k].2) is Ok {
            buys[k].1.spec_amount()
        } else {
            0
        }
    }
}

/// Over any run of purchases, `states[i + 1]` being what purchase `buys[i]`
/// leaves of `states[i]`, the ledger grows by exactly the prices of the
/// purchases whose transfer went through and that were recorded: no money
/// is taken in without a ticket, and no ticket is written without its money.
pub proof fn law_sale_books_balance(states: Seq<Contract>, buys: Seq<(Address, TicketSize, bool)>)
    requires
        states.len() == buys.len() + 1,
        forall|i: int|
            0 <= i < buys.len() ==> #[trigger] buy_effect(
                states[i],
                buys[i].0,
                buys[i].1,
                buys[i].2,
                states[i + 1],
            ),
    ensures
        total(states.last().tickets@) == total(states[0].tickets@) + recorded_pulls(
            states,
            buys,
            buys.len(),
        ),
{
    lemma_books_prefix(states, buys, buys.len());
}

proof fn lemma_books_prefix(states: Seq<Contract>, buys: Seq<(Address, TicketSize, bool)>, n: nat)
    requires
        states.len() == buys.len() + 1,
        n <= buys.len(),
        forall|i: int|
            0 <= i < buys.len() ==> #[trigger] buy_effect(
                states[i],
                buys[i].0,
                buys[i].1,
                buys[i].2,
                states[i + 1],
            ),
    ensures
        total(states[n as int].tickets@) == total(states[0].tickets@) + recorded_pulls(
            states,
            buys,
            n,
        ),
    decreases n,
{
    if n > 0 {
        let k = n - 1;
        lemma_books_prefix(states, buys, k as nat);
        assert(buy_effect(states[k], buys[k].0, buys[k].1, buys[k].2, states[k + 1]));
        let pre = states[k].tickets@;
        let t = Ticket { user: buys[k].0, size: buys[k].1 };
        assert(pre.push(t).drop_last() == pre);
    }
}

/// Once a claim has paid a participant out, a further claim by them finds
/// no ticket, whatever its transfer does, and changes nothing.
pub proof fn law_claim_once(
    pre: Contract,
    mid: Contract,
    post: Contract,
    user: Address,
    paid: bool,
    paid_again: bool,
)
    requires
        claim_outcome(pre, user, paid) is Ok,
        claim_effect(pre, user, paid, mid),
        claim_effect(mid, user, paid_again, post),
    ensures
        claim_outcome(mid, user, paid_again) == Err::<i128, ContractError>(ContractError::NoTicket),
        post == mid,
{
    lemma_without_user(pre.tickets@, user, user);
}

/// A deployment is initialised once: a second `init` is refused and the
/// admin and currency of the first stay.
pub proof fn law_init_once(
    pre: Contract,
    mid: Contract,
    post: Contract,
    admin: Address,
    currency: Address,
    admin_again: Address,
    currency_again: Address,
)
    requires
        init_outcome(pre) is Ok,
        init_effect(pre, admin, currency, mid),
        init_effect(mid, admin_again, currency_again, post),
    ensures
        init_outcome(mid) == Err::<(), ContractError>(ContractError::AlreadyInitialized),
        post == mid,
        post.admin == Some(admin),
        post.currency == Some(currency),
{
}

/// When every stake of the round has been refunded, in whatever order, the
/// winner is paid what came back from the venue less what was refunded,
/// provided the venue gave back at least the principal.
pub proof fn law_yield_is_harvest_less_refunds(pre: Contract, seed: u64, paid: bool)
    requires
        pre.wf(),
        pre.state == Some(crate::phase::LottoState::Raffle),
        pre.tickets@.len() == 0,
        pre.withdrawn >= pre.principal,
    ensures
        draw_outcome(pre, seed, paid) is Ok ==> draw_outcome(pre, seed, paid)->Ok_0.1
            == pre.withdrawn - pre.refunded,
{
}

/// Claims leave what the draw pays and whom it can pick untouched, so the
/// order in which participants claim makes no difference to the draw.
pub proof fn law_claims_leave_draw(pre: Contract, post: Contract, user: Address, paid: bool, seed: u64, paid_prize: bool)
    requires
        claim_effect(pre, user, paid, post),
    ensures
        prize(post) == prize(pre),
        post.entries == pre.entries,
        post.withdrawn == pre.withdrawn,
        post.principal == pre.principal,
        pre.state == Some(crate::phase::LottoState::Raffle) ==> draw_outcome(post, seed, paid_prize)
            == draw_outcome(pre, seed, paid_prize),
{
}

/// An operation tried outside its phase fails with `WrongPhase` and leaves
/// the whole state, ledger and currency included, as it was.
pub proof fn law_off_phase_changes_nothing(
    pre: Contract,
    user: Address,
    size: TicketSize,
    flag: bool,
    received: Option<i128>,
    seed: u64,
    post: Contract,
)
    ensures
        start_sale_outcome(pre) == Err::<(), ContractError>(ContractError::WrongPhase)
            && start_sale_effect(pre, post) ==> post == pre,
        buy_outcome(pre, flag) == Err::<(), ContractError>(ContractError::WrongPhase) && buy_effect(
            pre,
            user,
            size,
            flag,
            post,
        ) ==> post == pre,
        deposit_outcome(pre, flag) == Err::<i128, ContractError>(ContractError::WrongPhase)
            && deposit_effect(pre, flag, post) ==> post == pre,
        withdraw_outcome(pre, received) == Err::<i128, ContractError>(ContractError::WrongPhase)
            && withdraw_effect(pre, received, post) ==> post == pre,
        claim_outcome(pre, user, flag) == Err::<i128, ContractError>(ContractError::WrongPhase)
            && claim_effect(pre, user, flag, post) ==> post == pre,
        draw_outcome(pre, seed, flag) == Err::<(Address, i128), ContractError>(
            ContractError::WrongPhase,
        ) && draw_effect(pre, seed, flag, post) ==> post == pre,
{
}

} // verus!
