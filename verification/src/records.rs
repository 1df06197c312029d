use vstd::prelude::*;
use crate::identity::Identity;

verus! {

/// The counter that hands out lottery ids. There is one per deployment.
#[derive(Clone, Copy, Debug, PartialEq, Eq)]
pub struct Master {
    /// The highest lottery id handed out so far; 0 before the first.
    pub last_id: u32,
}

/// One lottery.
#[derive(Clone, Copy, Debug, PartialEq, Eq)]
pub struct Lottery {
    /// The value of the counter when this lottery was created.
    pub id: u32,
    /// The principal who may draw the winner.
    pub authority: Identity,
    /// What one ticket costs. Zero makes a free lottery.
    pub ticket_price: u64,
    /// How many tickets have been sold; also the id of the latest one.
    pub last_ticket_id: u32,
    /// The winning ticket, once drawn.
    pub winner_id: Option<u32>,
    /// Whether the prize has been paid out.
    pub claimed: bool,
}

/// One sold ticket.
#[derive(Clone, Copy, Debug, PartialEq, Eq)]
pub struct Ticket {
    /// Position of this ticket among those of its lottery, from 1.
    pub id: u32,
    /// The lottery this ticket was sold for.
    pub lottery_id: u32,
    /// The purchaser, who collects the prize if this ticket wins.
    pub authority: Identity,
}

/// A payment that the caller has to carry out.
#[derive(Clone, Copy, Debug, PartialEq, Eq)]
pub struct FundTransfer {
    /// Who receives the funds.
    pub recipient: Identity,
    /// How much is paid.
    pub amount: u64,
}

impl Master {
    /// A counter that has handed out nothing yet.
    pub open spec fn fresh() -> Master {
        Master { last_id: 0 }
    }
}

impl Lottery {
    /// A lottery as it stands right after creation: nothing sold, nothing
    /// drawn, nothing paid.
    pub open spec fn opened(id: u32, authority: Identity, ticket_price: u64) -> Lottery {
        Lottery { id, authority, ticket_price, last_ticket_id: 0, winner_id: None, claimed: false }
    }

    /// What every lottery satisfies that was created and changed only by
    /// this library's operations: a winner is one of the sold tickets, and
    /// a prize is only paid after a draw.
    pub open spec fn wf(self) -> bool {
        &&& self.winner_id matches Some(w) ==> 1 <= w <= self.last_ticket_id
        &&& self.claimed ==> self.winner_id is Some
    }

    /// Whether `later` can be a later state of this lottery: id, authority
    /// and price are fixed, the ticket count never falls, a winner once
    /// drawn stays, and a prize once paid stays paid.
    pub open spec fn may_become(self, later: Lottery) -> bool {
        &&& later.id == self.id
        &&& later.authority == self.authority
        &&& later.ticket_price == self.ticket_price
        &&& later.last_ticket_id >= self.last_ticket_id
        &&& self.winner_id is Some ==> later.winner_id == self.winner_id
        &&& self.claimed ==> later.claimed
    }
}

} // verus!
