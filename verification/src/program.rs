use vstd::prelude::*;
use crate::draw::{draw_winner, winner_at};
use crate::error::LotteryError;
use crate::identity::Identity;
use crate::records::{FundTransfer, Lottery, Master, Ticket};

verus! {

/// What `init_master` works on.
#[derive(Clone, Copy, Debug, PartialEq, Eq)]
pub struct InitMaster {
    /// The well-known place of the counter: empty until it is created.
    pub master: Option<Master>,
}

/// What `create_lottery` works on.
#[derive(Clone, Copy, Debug, PartialEq, Eq)]
pub struct CreateLottery {
    /// The place derived for the next lottery id: empty unless something
    /// went wrong with the addressing.
    pub lottery: Option<Lottery>,
    /// The counter.
    pub master: Master,
    /// The caller, who becomes the authority of the new lottery.
    pub authority: Identity,
}

/// What `buy_ticket` works on.
#[derive(Clone, Copy, Debug, PartialEq, Eq)]
pub struct BuyTicket {
    /// The lottery a ticket is bought for.
    pub lottery: Lottery,
    /// The place derived for the next ticket of that lottery.
    pub ticket: Option<Ticket>,
    /// The purchaser.
    pub buyer: Identity,
    /// What the purchaser owns.
    pub buyer_balance: u64,
    /// What the lottery has collected from its sales.
    pub pooled_balance: u64,
}

/// What `pick_winner` works on.
#[derive(Clone, Copy, Debug, PartialEq, Eq)]
pub struct PickWinner {
    /// The lottery to draw for.
    pub lottery: Lottery,
    /// The caller.
    pub authority: Identity,
}

/// What `claim` works on.
#[derive(Clone, Copy, Debug, PartialEq, Eq)]
pub struct Claim {
    /// The lottery whose prize is claimed.
    pub lottery: Lottery,
    /// The ticket presented as the winning one.
    pub ticket: Ticket,
    /// What the lottery has collected from its sales.
    pub pooled_balance: u64,
}

impl InitMaster {
    /// How `init_master` ends on this bundle.
    pub open spec fn outcome(self) -> Result<(), LotteryError> {
        if self.master is Some {
            Err(LotteryError::AlreadyInitialized)
        } else {
            Ok(())
        }
    }

    /// The bundle after a successful `init_master`.
    pub open spec fn applied(self) -> InitMaster {
        InitMaster { master: Some(Master::fresh()) }
    }
}

impl CreateLottery {
    /// How `create_lottery` ends on this bundle.
    pub open spec fn outcome(self) -> Result<(), LotteryError> {
        if self.lottery is Some {
            Err(LotteryError::AddressCollision)
        } else {
            Ok(())
        }
    }

    /// Whether the counter can still be raised.
    pub open spec fn in_range(self) -> bool {
        self.master.last_id < u32::MAX
    }

    /// The bundle after a successful `create_lottery`: the counter is
    /// raised by one, and the new lottery carries the raised value.
    pub open spec fn applied(self, ticket_price: u64) -> CreateLottery {
        let id = (self.master.last_id + 1) as u32;
        CreateLottery {
            lottery: Some(Lottery::opened(id, self.authority, ticket_price)),
            master: Master { last_id: id },
            authority: self.authority,
        }
    }
}

impl BuyTicket {
    /// How `buy_ticket` ends on this bundle. A lottery that has its winner
    /// sells nothing, whatever else holds.
    pub open spec fn outcome(self) -> Result<(), LotteryError> {
        if self.lottery.winner_id is Some {
            Err(LotteryError::WinnerAlreadyExists)
        } else if self.ticket is Some {
            Err(LotteryError::AddressCollision)
        } else if self.buyer_balance < self.lottery.ticket_price {
            Err(LotteryError::InsufficientFunds)
        } else {
            Ok(())
        }
    }

    /// Whether the ticket count and the pooled balance can take one more
    /// sale.
    pub open spec fn in_range(self) -> bool {
        &&& self.lottery.last_ticket_id < u32::MAX
        &&& self.pooled_balance + self.lottery.ticket_price <= u64::MAX
    }

    /// The bundle after a successful `buy_ticket`: the price has moved
    /// from the buyer to the pool, the ticket count is raised by one, and
    /// the new ticket carries the raised count.
    pub open spec fn applied(self, lottery_id: u32) -> BuyTicket {
        let id = (self.lottery.last_ticket_id + 1) as u32;
        BuyTicket {
            lottery: Lottery { last_ticket_id: id, ..self.lottery },
            ticket: Some(Ticket { id, lottery_id, authority: self.buyer }),
            buyer: self.buyer,
            buyer_balance: (self.buyer_balance - self.lottery.ticket_price) as u64,
            pooled_balance: (self.pooled_balance + self.lottery.ticket_price) as u64,
        }
    }
}

impl PickWinner {
    /// How `pick_winner` ends on this bundle.
    pub open spec fn outcome(self) -> Result<(), LotteryError> {
        if self.authority != self.lottery.authority {
            Err(LotteryError::Unauthorized)
        } else if self.lottery.last_ticket_id == 0 {
            Err(LotteryError::NoTickets)
        } else if self.lottery.winner_id is Some {
            Err(LotteryError::WinnerAlreadyExists)
        } else {
            Ok(())
        }
    }

    /// The bundle after a draw that selected `winner`.
    pub open spec fn applied(self, winner: u32) -> PickWinner {
        PickWinner { lottery: Lottery { winner_id: Some(winner), ..self.lottery }, authority: self.authority }
    }
}

impl Claim {
    /// How `claim` ends on this bundle: with the payment of the whole pool
    /// to the holder of the winning ticket, or with a refusal.
    pub open spec fn outcome(self) -> Result<FundTransfer, LotteryError> {
        match self.lottery.winner_id {
            None => Err(LotteryError::WinnerNotChosen),
            Some(winner) => if self.ticket.id != winner {
                Err(LotteryError::InvalidWinner)
            } else if self.lottery.claimed {
                Err(LotteryError::AlreadyClaimed)
            } else {
                Ok(FundTransfer { recipient: self.ticket.authority, amount: self.pooled_balance })
            },
        }
    }

    /// The bundle after a successful `claim`: the pool is empty and the
    /// lottery is settled.
    pub open spec fn applied(self) -> Claim {
        Claim { lottery: Lottery { claimed: true, ..self.lottery }, ticket: self.ticket, pooled_balance: 0 }
    }
}

/// Creates the counter, with nothing handed out yet. A second call is
/// refused.
pub fn init_master(ctx: &mut InitMaster) -> (res: Result<(), LotteryError>)
    ensures
        res == old(ctx).outcome(),
        res is Ok <==> old(ctx).master is None,
        res is Ok ==> *final(ctx) == old(ctx).applied(),
        res is Err ==> *final(ctx) == *old(ctx),
{
    if ctx.master.is_some() {
        return Err(LotteryError::AlreadyInitialized);
    }
    ctx.master = Some(Master { last_id: 0 });
    Ok(())
}

/// Creates a lottery with the next free id and the caller as its
/// authority. Any price is accepted, zero too.
pub fn create_lottery(ctx: &mut CreateLottery, ticket_price: u64) -> (res: Result<(), LotteryError>)
    requires
        old(ctx).outcome() is Ok ==> old(ctx).in_range(),
    ensures
        res == old(ctx).outcome(),
        res is Ok <==> old(ctx).lottery is None,
        res is Ok ==> *final(ctx) == old(ctx).applied(ticket_price),
        res is Ok ==> final(ctx).master.last_id == old(ctx).master.last_id + 1,
        res is Ok ==> final(ctx).lottery == Some(
            Lottery::opened(final(ctx).master.last_id, old(ctx).authority, ticket_price),
        ),
        res is Ok ==> final(ctx).lottery->0.wf(),
        res is Err ==> *final(ctx) == *old(ctx),
{
    if ctx.lottery.is_some() {
        return Err(LotteryError::AddressCollision);
    }
    let id: u32 = ctx.master.last_id + 1;
    ctx.master.last_id = id;
    ctx.lottery = Some(
        Lottery {
            id,
            authority: ctx.authority,
            ticket_price,
            last_ticket_id: 0,
            winner_id: None,
            claimed: false,
        },
    );
    Ok(())
}

/// Sells the next ticket of the lottery to the buyer and moves the price
/// from the buyer to the pool. `lottery_id` is the id under which the
/// lottery was looked up; the ticket refers back to it.
pub fn buy_ticket(ctx: &mut BuyTicket, lottery_id: u32) -> (res: Result<(), LotteryError>)
    requires
        old(ctx).outcome() is Ok ==> old(ctx).in_range(),
    ensures
        res == old(ctx).outcome(),
        res is Ok ==> *final(ctx) == old(ctx).applied(lottery_id),
        res is Ok ==> final(ctx).lottery.last_ticket_id == old(ctx).lottery.last_ticket_id + 1,
        res is Ok ==> final(ctx).ticket == Some(
            Ticket {
                id: final(ctx).lottery.last_ticket_id,
                lottery_id,
                authority: old(ctx).buyer,
            },
        ),
        res is Ok ==> final(ctx).buyer_balance + old(ctx).lottery.ticket_price == old(
            ctx,
        ).buyer_balance,
        res is Ok ==> final(ctx).pooled_balance == old(ctx).pooled_balance + old(
            ctx,
        ).lottery.ticket_price,
        res is Err ==> *final(ctx) == *old(ctx),
        old(ctx).lottery.winner_id is Some ==> res == Err::<(), LotteryError>(
            LotteryError::WinnerAlreadyExists,
        ),
        old(ctx).lottery.wf() ==> final(ctx).lottery.wf(),
        old(ctx).lottery.may_become(final(ctx).lottery),
{
    if ctx.lottery.winner_id.is_some() {
        return Err(LotteryError::WinnerAlreadyExists);
    }
    if ctx.ticket.is_some() {
        return Err(LotteryError::AddressCollision);
    }
    let price: u64 = ctx.lottery.ticket_price;
    if ctx.buyer_balance < price {
        return Err(LotteryError::InsufficientFunds);
    }
    ctx.buyer_balance = ctx.buyer_balance - price;
    ctx.pooled_balance = ctx.pooled_balance + price;
    let id: u32 = ctx.lottery.last_ticket_id + 1;
    ctx.lottery.last_ticket_id = id;
    ctx.ticket = Some(Ticket { id, lottery_id, authority: ctx.buyer });
    Ok(())
}

/// Draws the winner of the lottery from the clock reading handed in, and
/// records it. Only the lottery's authority may draw, only once, and only
/// when a ticket was sold. `lottery_id` is the id under which the lottery
/// was looked up.
///
/// The draw can be recomputed, and so predicted, by anyone who knows the
/// clock reading: it is not fit to resist an adversary.
pub fn pick_winner(ctx: &mut PickWinner, lottery_id: u32, unix_timestamp: i64, slot: u64) -> (res:
    Result<(), LotteryError>)
    ensures
        res == old(ctx).outcome(),
        res is Ok ==> 1 <= winner_at(unix_timestamp, slot, old(ctx).lottery.last_ticket_id)
            <= old(ctx).lottery.last_ticket_id,
        res is Ok ==> *final(ctx) == old(ctx).applied(
            winner_at(unix_timestamp, slot, old(ctx).lottery.last_ticket_id) as u32,
        ),
        res is Ok ==> final(ctx).lottery.winner_id is Some && 1 <= final(ctx).lottery.winner_id->0
            <= final(ctx).lottery.last_ticket_id,
        res is Ok ==> final(ctx).lottery.wf(),
        res is Err ==> *final(ctx) == *old(ctx),
        old(ctx).lottery.wf() ==> final(ctx).lottery.wf(),
        old(ctx).lottery.may_become(final(ctx).lottery),
{
    if !(ctx.authority == ctx.lottery.authority) {
        return Err(LotteryError::Unauthorized);
    }
    if ctx.lottery.last_ticket_id == 0 {
        return Err(LotteryError::NoTickets);
    }
    if ctx.lottery.winner_id.is_some() {
        return Err(LotteryError::WinnerAlreadyExists);
    }
    let winner: u32 = draw_winner(unix_timestamp, slot, ctx.lottery.last_ticket_id);
    ctx.lottery.winner_id = Some(winner);
    Ok(())
}

/// Settles the prize: the whole pool goes to the holder of the winning
/// ticket, once. The payment returned is for the caller to carry out.
/// `lottery_id` is the id under which the lottery was looked up.
pub fn claim(ctx: &mut Claim, lottery_id: u32) -> (res: Result<FundTransfer, LotteryError>)
    ensures
        res == old(ctx).outcome(),
        res is Ok ==> *final(ctx) == old(ctx).applied(),
        res is Ok ==> final(ctx).lottery.claimed && final(ctx).pooled_balance == 0,
        res is Err ==> *final(ctx) == *old(ctx),
        old(ctx).lottery.wf() ==> final(ctx).lottery.wf(),
        old(ctx).lottery.may_become(final(ctx).lottery),
{
    let winner: u32 = match ctx.lottery.winner_id {
        None => {
            return Err(LotteryError::WinnerNotChosen);
        },
        Some(w) => w,
    };
    if ctx.ticket.id != winner {
        return Err(LotteryError::InvalidWinner);
    }
    if ctx.lottery.claimed {
        return Err(LotteryError::AlreadyClaimed);
    }
    let payment = FundTransfer { recipient: ctx.ticket.authority, amount: ctx.pooled_balance };
    ctx.lottery.claimed = true;
    ctx.pooled_balance = 0;
    Ok(payment)
}

} // verus!
