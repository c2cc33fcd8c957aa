use vstd::prelude::*;

pub mod contract;
pub mod error;
pub mod laws;
pub mod ledger;
pub mod phase;
pub mod storage;
pub mod ticket;

pub use contract::Contract;
pub use error::ContractError;
pub use phase::LottoState;
pub use ticket::{Address, Ticket, TicketSize};

verus! {

} // verus!
