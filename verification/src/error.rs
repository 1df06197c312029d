use vstd::prelude::*;

verus! {

/// Why an operation was refused. Every refusal is final: the operation has
/// changed nothing.
#[derive(Clone, Copy, Debug, PartialEq, Eq, Structural)]
pub enum LotteryError {
    /// The counter record already exists.
    AlreadyInitialized,
    /// The location derived for a new record is already occupied.
    AddressCollision,
    /// A winner has been drawn: no more tickets, no second draw.
    WinnerAlreadyExists,
    /// A draw was asked for before any ticket was sold.
    NoTickets,
    /// A claim was made before the draw.
    WinnerNotChosen,
    /// A claim was made with a ticket that did not win.
    InvalidWinner,
    /// The prize has been paid out before.
    AlreadyClaimed,
    /// The caller is not the lottery's authority.
    Unauthorized,
    /// The buyer cannot pay the ticket price.
    InsufficientFunds,
}

impl LotteryError {
    /// The text shown to a user for this error.
    pub open spec fn spec_message(self) -> Seq<char> {
        match self {
            LotteryError::AlreadyInitialized => "The master counter is already initialized"@,
            LotteryError::AddressCollision => "A record already exists at the derived address"@,
            LotteryError::WinnerAlreadyExists => "Winner Already Exists"@,
            LotteryError::NoTickets => "Can't choose a winner when there are no tickets"@,
            LotteryError::WinnerNotChosen => "Winner has not been chosen"@,
            LotteryError::InvalidWinner => "Invalid Winner"@,
            LotteryError::AlreadyClaimed => "The prize has already been claimed"@,
            LotteryError::Unauthorized => "Only the lottery authority may pick the winner"@,
            LotteryError::InsufficientFunds => "The buyer's balance is below the ticket price"@,
        }
    }

    /// The text shown to a user for this error.
    pub fn message(&self) -> (text: &'static str)
        ensures
            text@ == self.spec_message(),
    {
        match self {
            LotteryError::AlreadyInitialized => "The master counter is already initialized",
            LotteryError::AddressCollision => "A record already exists at the derived address",
            LotteryError::WinnerAlreadyExists => "Winner Already Exists",
            LotteryError::NoTickets => "Can't choose a winner when there are no tickets",
            LotteryError::WinnerNotChosen => "Winner has not been chosen",
            LotteryError::InvalidWinner => "Invalid Winner",
            LotteryError::AlreadyClaimed => "The prize has already been claimed",
            LotteryError::Unauthorized => "Only the lottery authority may pick the winner",
            LotteryError::InsufficientFunds => "The buyer's balance is below the ticket price",
        }
    }
}

} // verus!
