use vstd::prelude::*;

use crate::ticket::{
    count, holds_ticket, lemma_total_bounds, max_ticket_amount, stake, total, without_user,
    Address, Ticket,
};

verus! {

/// Taking a holder out removes exactly that holder's stake and tickets.
pub proof fn lemma_without_user(s: Seq<Ticket>, u: Address, w: Address)
    ensures
        total(without_user(s, u)) == total(s) - stake(s, u),
        stake(without_user(s, u), u) == 0,
        count(without_user(s, u), u) == 0,
        !holds_ticket(without_user(s, u), u),
        w != u ==> stake(without_user(s, u), w) == stake(s, w),
        w != u ==> count(without_user(s, u), w) == count(s, w),
        without_user(s, u).len() <= s.len(),
    decreases s.len(),
{
    if s.len() > 0 {
        let p = s.drop_last();
        lemma_without_user(p, u, w);
        let r = without_user(p, u);
        if s.last().user != u {
            assert(r.push(s.last()).drop_last() == r);
            assert forall|i: int| 0 <= i < r.push(s.last()).len() implies #[trigger] r.push(
                s.last(),
            )[i].user != u by {
                if i < r.len() {
                    assert(r.push(s.last())[i] == r[i]);
                    if r[i].user == u {
                        assert(holds_ticket(r, u));
                    }
                }
            }
        }
    }
}

/// Prefix of a ledger extended by one ticket.
proof fn lemma_take_next(s: Seq<Ticket>, i: int)
    requires
        0 <= i < s.len(),
    ensures
        s.take(i + 1).drop_last() == s.take(i),
        s.take(i + 1).last() == s[i],
        total(s.take(i + 1)) == total(s.take(i)) + s[i].size.spec_amount(),
{
    assert(s.take(i + 1).drop_last() =~= s.take(i));
}

/// The stake in a ledger prefix one past `i` fits in an `i128`.
proof fn lemma_prefix_fits(s: Seq<Ticket>, i: int)
    requires
        0 <= i < s.len(),
        s.len() <= usize::MAX,
    ensures
        0 <= total(s.take(i + 1)) <= max_ticket_amount() * (usize::MAX as int),
{
    lemma_total_bounds(s.take(i + 1));
    assert(max_ticket_amount() * (i + 1) <= max_ticket_amount() * (usize::MAX as int))
        by (nonlinear_arith)
        requires
            0 <= i < usize::MAX,
    ;
}

/// Sum of all stakes in the ledger.
pub fn ledger_total(v: &Vec<Ticket>) -> (r: i128)
    ensures
        r == total(v@),
{
    let mut acc: i128 = 0;
    let mut i: usize = 0;
    while i < v.len()
        invariant
            i <= v.len(),
            acc == total(v@.take(i as int)),
        decreases v.len() - i,
    {
        proof {
            lemma_take_next(v@, i as int);
            lemma_prefix_fits(v@, i as int);
        }
        acc = acc + v[i].size.amount();
        i = i + 1;
    }
    assert(v@.take(v.len() as int) =~= v@);
    acc
}

/// Splits the ledger into the tickets of everyone but `u`, and `u`'s stake.
pub fn take_out_holder(v: &Vec<Ticket>, u: Address) -> (r: (Vec<Ticket>, i128))
    ensures
        r.0@ == without_user(v@, u),
        r.1 == stake(v@, u),
{
    let mut rest: Vec<Ticket> = Vec::new();
    let mut refund: i128 = 0;
    let mut i: usize = 0;
    while i < v.len()
        invariant
            i <= v.len(),
            rest@ == without_user(v@.take(i as int), u),
            refund == stake(v@.take(i as int), u),
        decreases v.len() - i,
    {
        proof {
            lemma_take_next(v@, i as int);
            crate::ticket::lemma_stake_bounds(v@.take(i as int + 1), u);
            lemma_prefix_fits(v@, i as int);
        }
        let t = v[i];
        if t.user == u {
            refund = refund + t.size.amount();
        } else {
            rest.push(t);
        }
        i = i + 1;
    }
    assert(v@.take(v.len() as int) =~= v@);
    (rest, refund)
}

/// Position of the ticket that a draw of `target` lands on: the one whose
/// stake covers `target` when the stakes are laid end to end in order.
pub open spec fn lands_on(s: Seq<Ticket>, target: int, i: int) -> bool {
    &&& 0 <= i < s.len()
    &&& total(s.take(i)) <= target < total(s.take(i + 1))
}

/// Finds the ticket on which `target` lands, given `target` is below the total.
pub fn landing_position(v: &Vec<Ticket>, target: i128) -> (r: usize)
    requires
        0 <= target < total(v@),
    ensures
        lands_on(v@, target as int, r as int),
{
    let mut acc: i128 = 0;
    let mut i: usize = 0;
    while i < v.len()
        invariant
            i <= v.len(),
            acc == total(v@.take(i as int)),
            acc <= target,
            0 <= target < total(v@),
        decreases v.len() - i,
    {
        proof {
            lemma_take_next(v@, i as int);
            lemma_prefix_fits(v@, i as int);
        }
        let next = acc + v[i].size.amount();
        if target < next {
            return i;
        }
        acc = next;
        i = i + 1;
    }
    assert(v@.take(v.len() as int) =~= v@);
    0
}

} // verus!

verus! {

/// Longer prefixes of a ledger never hold less stake.
pub proof fn lemma_prefix_monotone(s: Seq<Ticket>, a: int, b: int)
    requires
        0 <= a <= b <= s.len(),
    ensures
        total(s.take(a)) <= total(s.take(b)),
    decreases b - a,
{
    if a < b {
        lemma_take_next(s, b - 1);
        lemma_prefix_monotone(s, a, b - 1);
    }
}

/// A draw lands on at most one position.
pub proof fn lemma_landing_unique(s: Seq<Ticket>, target: int, i: int, j: int)
    requires
        lands_on(s, target, i),
        lands_on(s, target, j),
    ensures
        i == j,
{
    if i < j {
        lemma_prefix_monotone(s, i + 1, j);
    } else if j < i {
        lemma_prefix_monotone(s, j + 1, i);
    }
}

/// Holder of the ticket that a draw with `seed` lands on, stakes weighing the odds.
pub open spec fn draw_winner(s: Seq<Ticket>, seed: u64) -> Address {
    s[choose|i: int| #[trigger] lands_on(s, seed as int % total(s), i)].user
}

/// Number of tickets that `u` holds.
pub fn holder_count(v: &Vec<Ticket>, u: Address) -> (r: usize)
    ensures
        r == count(v@, u),
{
    let mut n: usize = 0;
    let mut i: usize = 0;
    while i < v.len()
        invariant
            i <= v.len(),
            n == count(v@.take(i as int), u),
            n <= i,
        decreases v.len() - i,
    {
        proof {
            lemma_take_next(v@, i as int);
        }
        if v[i].user == u {
            n = n + 1;
        }
        i = i + 1;
    }
    assert(v@.take(v.len() as int) =~= v@);
    n
}

/// A copy of the ledger.
pub fn copy_ledger(v: &Vec<Ticket>) -> (r: Vec<Ticket>)
    ensures
        r@ == v@,
{
    let mut out: Vec<Ticket> = Vec::new();
    let mut i: usize = 0;
    while i < v.len()
        invariant
            i <= v.len(),
            out@ == v@.take(i as int),
        decreases v.len() - i,
    {
        out.push(v[i]);
        assert(out@ =~= v@.take(i as int + 1));
        i = i + 1;
    }
    assert(v@.take(v.len() as int) =~= v@);
    out
}

} // verus!
