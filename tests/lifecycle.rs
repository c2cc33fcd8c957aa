use no_loss_lottery::phase::{TTL_1_5_DAYS, TTL_7_DAYS};
use no_loss_lottery::storage::{
    admin_exists, check_state, extend_state_ttl, get_currency, get_state, init, set_currency,
    set_state,
};
use no_loss_lottery::{Address, Contract, ContractError, LottoState, TicketSize};

fn addr(id: u64) -> Address {
    Address { id }
}

fn initialized() -> Contract {
    let mut c = Contract::new();
    assert_eq!(c.init(addr(1), addr(2)), Ok(()));
    c
}

fn on_sale() -> Contract {
    let mut c = initialized();
    assert_eq!(c.start_sale(), Ok(()));
    c
}

#[test]
fn ticket_amounts_are_fixed_per_class() {
    assert_eq!(TicketSize::Small.amount(), 10_000_000);
    assert_eq!(TicketSize::Medium.amount(), 100_000_000);
    assert_eq!(TicketSize::Large.amount(), 1_000_000_000);
}

#[test]
fn full_round_with_one_participant() {
    let p1 = addr(10);
    let mut c = Contract::new();
    assert_eq!(c.init(addr(1), addr(2)), Ok(()));
    assert_eq!(c.state, Some(LottoState::Ended));
    assert_eq!(c.start_sale(), Ok(()));
    assert_eq!(c.state, Some(LottoState::Sale));
    assert_eq!(c.buy_ticket(p1, TicketSize::Medium, true), Ok(()));
    assert_eq!(c.stake_of(p1), 100_000_000);
    assert_eq!(c.buy_ticket(p1, TicketSize::Small, true), Ok(()));
    assert_eq!(c.stake_of(p1), 110_000_000);
    assert_eq!(c.ticket_count(p1), 2);
    assert_eq!(c.deposit_to_blend(true), Ok(110_000_000));
    assert_eq!(c.state, Some(LottoState::Yielding));
    assert_eq!(c.withdraw_from_blend(Some(121_000_000)), Ok(121_000_000));
    assert_eq!(c.state, Some(LottoState::Payback));
    assert_eq!(c.claim_ticket(p1, true), Ok(110_000_000));
    assert_eq!(c.state, Some(LottoState::Raffle));
    assert_eq!(c.draw(7), Some((p1, 11_000_000)));
    assert_eq!(c.winner_chicken_dinner(7, true), Ok((p1, 11_000_000)));
    assert_eq!(c.state, Some(LottoState::Ended));
}

#[test]
fn draw_without_tickets_reports_no_participants_and_ends() {
    let mut c = on_sale();
    assert_eq!(c.deposit_to_blend(true), Ok(0));
    assert_eq!(c.withdraw_from_blend(Some(0)), Ok(0));
    assert_eq!(c.state, Some(LottoState::Raffle));
    assert_eq!(c.draw(3), None);
    assert_eq!(c.winner_chicken_dinner(3, true), Err(ContractError::NoParticipants));
    assert_eq!(c.state, Some(LottoState::Ended));
}

#[test]
fn second_init_is_refused_and_keeps_first_values() {
    let mut c = initialized();
    assert_eq!(c.init(addr(5), addr(6)), Err(ContractError::AlreadyInitialized));
    assert_eq!(c.admin, Some(addr(1)));
    assert_eq!(c.currency, Some(addr(2)));
}

#[test]
fn operations_before_init_find_no_state() {
    let mut c = Contract::new();
    assert_eq!(c.start_sale(), Err(ContractError::NoStateFound));
    assert_eq!(c.buy_ticket(addr(3), TicketSize::Small, true), Err(ContractError::NoStateFound));
    assert_eq!(c.claim_ticket(addr(3), true), Err(ContractError::NoStateFound));
    assert_eq!(c.winner_chicken_dinner(1, true), Err(ContractError::NoStateFound));
}

#[test]
fn second_claim_finds_no_ticket() {
    let p = addr(10);
    let mut c = on_sale();
    c.buy_ticket(p, TicketSize::Large, true).unwrap();
    c.deposit_to_blend(true).unwrap();
    c.withdraw_from_blend(Some(1_000_000_500)).unwrap();
    assert_eq!(c.claim_ticket(p, true), Ok(1_000_000_000));
    assert_eq!(c.claim_ticket(p, true), Err(ContractError::NoTicket));
    assert_eq!(c.refunded, 1_000_000_000);
}

#[test]
fn claim_without_ticket_fails() {
    let mut c = on_sale();
    c.buy_ticket(addr(10), TicketSize::Small, true).unwrap();
    c.deposit_to_blend(true).unwrap();
    c.withdraw_from_blend(Some(10_000_000)).unwrap();
    assert_eq!(c.claim_ticket(addr(11), true), Err(ContractError::NoTicket));
    assert_eq!(c.state, Some(LottoState::Payback));
}

#[test]
fn off_phase_operations_fail_with_wrong_phase() {
    let mut c = initialized();
    assert_eq!(c.buy_ticket(addr(10), TicketSize::Small, true), Err(ContractError::WrongPhase));
    assert_eq!(c.deposit_to_blend(true), Err(ContractError::WrongPhase));
    assert_eq!(c.withdraw_from_blend(Some(5)), Err(ContractError::WrongPhase));
    assert_eq!(c.claim_ticket(addr(10), true), Err(ContractError::WrongPhase));
    assert_eq!(c.winner_chicken_dinner(1, true), Err(ContractError::WrongPhase));
    assert_eq!(c.tickets.len(), 0);
    assert_eq!(c.currency, Some(addr(2)));
    assert_eq!(c.state, Some(LottoState::Ended));
    c.start_sale().unwrap();
    assert_eq!(c.start_sale(), Err(ContractError::WrongPhase));
}

#[test]
fn failed_pull_records_nothing() {
    let mut c = on_sale();
    assert_eq!(c.buy_ticket(addr(10), TicketSize::Medium, false), Err(ContractError::TransferFailed));
    assert_eq!(c.tickets.len(), 0);
    assert_eq!(c.pool(), 0);
}

#[test]
fn failed_refund_keeps_the_ticket() {
    let p = addr(10);
    let mut c = on_sale();
    c.buy_ticket(p, TicketSize::Small, true).unwrap();
    c.deposit_to_blend(true).unwrap();
    c.withdraw_from_blend(Some(10_000_000)).unwrap();
    assert_eq!(c.claim_ticket(p, false), Err(ContractError::TransferFailed));
    assert_eq!(c.stake_of(p), 10_000_000);
    assert_eq!(c.state, Some(LottoState::Payback));
}

#[test]
fn venue_refusals_leave_phase() {
    let mut c = on_sale();
    assert_eq!(c.deposit_to_blend(false), Err(ContractError::VenueError));
    assert_eq!(c.state, Some(LottoState::Sale));
    c.deposit_to_blend(true).unwrap();
    assert_eq!(c.withdraw_from_blend(None), Err(ContractError::VenueError));
    assert_eq!(c.state, Some(LottoState::Yielding));
}

#[test]
fn failed_prize_transfer_keeps_raffle() {
    let mut c = on_sale();
    c.buy_ticket(addr(10), TicketSize::Small, true).unwrap();
    c.deposit_to_blend(true).unwrap();
    c.withdraw_from_blend(Some(12_000_000)).unwrap();
    c.claim_ticket(addr(10), true).unwrap();
    assert_eq!(c.winner_chicken_dinner(0, false), Err(ContractError::TransferFailed));
    assert_eq!(c.state, Some(LottoState::Raffle));
}

#[test]
fn ledger_total_matches_successful_pulls() {
    let mut c = on_sale();
    c.buy_ticket(addr(10), TicketSize::Small, true).unwrap();
    let _ = c.buy_ticket(addr(11), TicketSize::Large, false);
    c.buy_ticket(addr(12), TicketSize::Medium, true).unwrap();
    c.buy_ticket(addr(10), TicketSize::Large, true).unwrap();
    assert_eq!(c.pool(), 10_000_000 + 100_000_000 + 1_000_000_000);
    assert_eq!(c.stake_of(addr(11)), 0);
    assert_eq!(c.ticket_count(addr(10)), 2);
}

#[test]
fn yield_equals_withdrawn_less_refunds_in_any_order() {
    let (a, b) = (addr(10), addr(11));
    let mut c = on_sale();
    c.buy_ticket(a, TicketSize::Medium, true).unwrap();
    c.buy_ticket(b, TicketSize::Small, true).unwrap();
    c.deposit_to_blend(true).unwrap();
    c.withdraw_from_blend(Some(115_000_000)).unwrap();
    assert_eq!(c.claim_ticket(b, true), Ok(10_000_000));
    assert_eq!(c.state, Some(LottoState::Raffle));
    assert_eq!(c.claim_ticket(a, true), Ok(100_000_000));
    let (_, prize) = c.winner_chicken_dinner(5, true).unwrap();
    assert_eq!(prize, 115_000_000 - c.refunded);
    assert_eq!(prize, 5_000_000);
}

#[test]
fn draw_is_weighted_by_stake_in_ledger_order() {
    let (a, b) = (addr(10), addr(11));
    let mut c = on_sale();
    c.buy_ticket(a, TicketSize::Small, true).unwrap();
    c.buy_ticket(b, TicketSize::Medium, true).unwrap();
    c.deposit_to_blend(true).unwrap();
    c.withdraw_from_blend(Some(110_000_000)).unwrap();
    c.claim_ticket(a, true).unwrap();
    assert_eq!(c.draw(9_999_999).map(|d| d.0), Some(a));
    assert_eq!(c.draw(10_000_000).map(|d| d.0), Some(b));
    assert_eq!(c.draw(110_000_000 + 3).map(|d| d.0), Some(a));
}

#[test]
fn short_harvest_pays_no_prize() {
    let mut c = on_sale();
    c.buy_ticket(addr(10), TicketSize::Small, true).unwrap();
    c.deposit_to_blend(true).unwrap();
    c.withdraw_from_blend(Some(9_000_000)).unwrap();
    c.claim_ticket(addr(10), true).unwrap();
    assert_eq!(c.winner_chicken_dinner(0, true), Ok((addr(10), 0)));
}

#[test]
fn unclaimed_stake_carries_into_next_round() {
    let (a, b) = (addr(10), addr(11));
    let mut c = on_sale();
    c.buy_ticket(a, TicketSize::Small, true).unwrap();
    c.buy_ticket(b, TicketSize::Small, true).unwrap();
    c.deposit_to_blend(true).unwrap();
    c.withdraw_from_blend(Some(20_000_000)).unwrap();
    c.claim_ticket(a, true).unwrap();
    c.winner_chicken_dinner(0, true).unwrap();
    c.start_sale().unwrap();
    assert_eq!(c.stake_of(b), 10_000_000);
    assert_eq!(c.deposit_to_blend(true), Ok(10_000_000));
}

#[test]
fn phase_writes_refresh_expiry() {
    let mut c = initialized();
    assert_eq!(c.state_ttl, TTL_1_5_DAYS);
    c.start_sale().unwrap();
    c.deposit_to_blend(true).unwrap();
    assert_eq!(c.state_ttl, TTL_7_DAYS);
    c.withdraw_from_blend(Some(0)).unwrap();
    assert_eq!(c.state_ttl, TTL_1_5_DAYS);
    assert_eq!(c.state, Some(LottoState::Raffle));
    assert_eq!(TTL_1_5_DAYS, 25_920);
    assert_eq!(TTL_7_DAYS, 120_960);
}

#[test]
fn storage_helpers_read_and_write() {
    let mut c = Contract::new();
    assert!(!admin_exists(&c));
    assert_eq!(get_state(&c), Err(ContractError::NoStateFound));
    assert_eq!(get_currency(&c), Err(ContractError::NoStateFound));
    assert_eq!(check_state(&c, LottoState::Ended), Err(ContractError::NoStateFound));
    init(&mut c, &addr(1));
    assert!(admin_exists(&c));
    assert_eq!(get_state(&c), Ok(LottoState::Ended));
    assert_eq!(check_state(&c, LottoState::Ended), Ok(true));
    assert_eq!(check_state(&c, LottoState::Sale), Err(ContractError::WrongPhase));
    assert_eq!(set_state(&mut c, LottoState::Raffle), Ok(()));
    assert_eq!(get_state(&c), Ok(LottoState::Raffle));
    assert_eq!(set_currency(&mut c, addr(4)), Ok(()));
    assert_eq!(get_currency(&c), Ok(addr(4)));
    extend_state_ttl(&mut c, 77);
    assert_eq!(c.state_ttl, 77);
}

#[test]
fn empty_round_cycles_back_to_a_new_sale() {
    let mut c = on_sale();
    c.deposit_to_blend(true).unwrap();
    c.withdraw_from_blend(Some(0)).unwrap();
    assert_eq!(c.winner_chicken_dinner(1, true), Err(ContractError::NoParticipants));
    assert_eq!(c.start_sale(), Ok(()));
    assert_eq!(c.state, Some(LottoState::Sale));
}

#[test]
fn claim_order_does_not_change_the_draw() {
    let (a, b) = (addr(10), addr(11));
    let round = || {
        let mut c = on_sale();
        c.buy_ticket(a, TicketSize::Medium, true).unwrap();
        c.buy_ticket(b, TicketSize::Large, true).unwrap();
        c.deposit_to_blend(true).unwrap();
        c.withdraw_from_blend(Some(1_210_000_000)).unwrap();
        c
    };
    let mut first = round();
    first.claim_ticket(a, true).unwrap();
    first.claim_ticket(b, true).unwrap();
    let mut second = round();
    second.claim_ticket(b, true).unwrap();
    second.claim_ticket(a, true).unwrap();
    assert_eq!(first.refunded, second.refunded);
    let one = first.winner_chicken_dinner(150_000_000, true);
    let two = second.winner_chicken_dinner(150_000_000, true);
    assert_eq!(one, two);
    assert_eq!(one, Ok((b, 110_000_000)));
}

#[test]
fn bookkeeping_check_spots_a_broken_state() {
    let mut c = on_sale();
    c.buy_ticket(addr(10), TicketSize::Small, true).unwrap();
    c.deposit_to_blend(true).unwrap();
    assert!(c.is_wf());
    c.refunded = 5;
    assert!(!c.is_wf());
}
