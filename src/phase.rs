use vstd::prelude::*;

verus! {

/// The phase the lottery is in; each has exactly one successor.
#[derive(Clone, Copy, PartialEq, Eq, Structural, Debug)]
pub enum LottoState {
    Sale,
    Yielding,
    Payback,
    Raffle,
    Ended,
}

/// Expiry refreshed on a phase write, in ledgers (about a day and a half).
pub const TTL_1_5_DAYS: u32 = 25_920;

/// Expiry refreshed when the pool goes into the venue (about seven days).
pub const TTL_7_DAYS: u32 = 120_960;

/// The one phase that may follow `p` in the lifecycle.
pub open spec fn successor(p: LottoState) -> LottoState {
    match p {
        LottoState::Ended => LottoState::Sale,
        LottoState::Sale => LottoState::Yielding,
        LottoState::Yielding => LottoState::Payback,
        LottoState::Payback => LottoState::Raffle,
        LottoState::Raffle => LottoState::Ended,
    }
}

/// A change of phase is legal when it stays put or moves to the successor.
/// The one wider step passes through `Payback` from `Yielding` to `Raffle`,
/// taken when a round had no stake and so nobody is owed a refund.
pub open spec fn legal_move(pre: Option<LottoState>, post: Option<LottoState>) -> bool {
    ||| post == pre
    ||| (pre is Some && post == Some(successor(pre->Some_0)))
    ||| (pre == Some(LottoState::Yielding) && post == Some(
        successor(successor(LottoState::Yielding)),
    ))
}

/// Walking the successor relation from any phase comes back after five steps,
/// and no earlier: the phases form one cycle.
pub proof fn lemma_phase_cycle(p: LottoState)
    ensures
        successor(successor(successor(successor(successor(p))))) == p,
        successor(p) != p,
        successor(successor(p)) != p,
        successor(successor(successor(p))) != p,
        successor(successor(successor(successor(p)))) != p,
        forall|q: LottoState| successor(q) == successor(p) ==> q == p,
{
}

} // verus!
