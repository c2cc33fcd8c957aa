use vstd::prelude::*;

verus! {

/// Why an operation did not go through.
#[derive(Clone, Copy, PartialEq, Eq, Structural, Debug)]
pub enum ContractError {
    /// `init` was called when an admin was already set.
    AlreadyInitialized,
    /// The operation is not open in the current phase.
    WrongPhase,
    /// The phase or the currency was read before it was stored.
    NoStateFound,
    /// The participant holds no ticket to refund.
    NoTicket,
    /// A draw was made with no stake in the round.
    NoParticipants,
    /// The token transfer that the operation needed did not go through.
    TransferFailed,
    /// The yield venue refused the deposit or the withdrawal.
    VenueError,
}

} // verus!
