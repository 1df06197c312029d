use vstd::prelude::*;
use crate::error::LotteryError;
use crate::identity::Identity;
use crate::program::{BuyTicket, Claim, CreateLottery, PickWinner};
use crate::records::{FundTransfer, Lottery, Master, Ticket};

verus! {

/// The lotteries that a run of creations yields, in order. Each request
/// names the caller and the price; each creation finds its place empty and
/// the counter as the creation before left it.
pub open spec fn lotteries_created(master: Master, requests: Seq<(Identity, u64)>) -> Seq<Lottery>
    decreases requests.len(),
{
    if requests.len() == 0 {
        Seq::empty()
    } else {
        let done = CreateLottery { lottery: None, master, authority: requests[0].0 }.applied(
            requests[0].1,
        );
        seq![done.lottery->0].add(lotteries_created(done.master, requests.drop_first()))
    }
}

/// The counter after the same run of creations.
pub open spec fn master_after(master: Master, requests: Seq<(Identity, u64)>) -> Master
    decreases requests.len(),
{
    if requests.len() == 0 {
        master
    } else {
        let done = CreateLottery { lottery: None, master, authority: requests[0].0 }.applied(
            requests[0].1,
        );
        master_after(done.master, requests.drop_first())
    }
}

/// Lottery ids count up by one from the counter, without gaps or repeats:
/// the k-th lottery of a run (from 0) gets the counter's value plus k + 1.
/// On a fresh counter the ids are 1, 2, 3 and so on.
pub proof fn lemma_lottery_ids_count_up(master: Master, requests: Seq<(Identity, u64)>)
    requires
        master.last_id + requests.len() <= u32::MAX,
    ensures
        lotteries_created(master, requests).len() == requests.len(),
        forall|k: int|
            0 <= k < requests.len() ==> {
                let lottery = #[trigger] lotteries_created(master, requests)[k];
                &&& lottery.id == master.last_id + k + 1
                &&& lottery == Lottery::opened(lottery.id, requests[k].0, requests[k].1)
            },
        forall|j: int, k: int|
            0 <= j < k < requests.len() ==> (#[trigger] lotteries_created(master, requests)[j]).id
                != (#[trigger] lotteries_created(master, requests)[k]).id,
        master_after(master, requests).last_id == master.last_id + requests.len(),
    decreases requests.len(),
{
    if requests.len() > 0 {
        let done = CreateLottery { lottery: None, master, authority: requests[0].0 }.applied(
            requests[0].1,
        );
        let rest = requests.drop_first();
        lemma_lottery_ids_count_up(done.master, rest);
        let all = lotteries_created(master, requests);
        assert forall|k: int| 0 <= k < requests.len() implies {
            let lottery = #[trigger] all[k];
            &&& lottery.id == master.last_id + k + 1
            &&& lottery == Lottery::opened(lottery.id, requests[k].0, requests[k].1)
        } by {
            if k > 0 {
                assert(all[k] == lotteries_created(done.master, rest)[k - 1]);
                assert(rest[k - 1] == requests[k]);
            }
        }
    }
}

/// What a run of purchase attempts leaves behind: the lottery, its pool,
/// and the tickets that were issued, in order.
pub struct Sales {
    pub lottery: Lottery,
    pub pooled_balance: u64,
    pub tickets: Seq<Ticket>,
}

/// The result of a run of purchase attempts on one lottery. Each attempt
/// names the buyer and what the buyer owns; each finds the place of its
/// ticket empty, and the lottery and the pool as the attempt before left
/// them. A refused attempt leaves no trace.
pub open spec fn sales(
    lottery: Lottery,
    pooled_balance: u64,
    lottery_id: u32,
    attempts: Seq<(Identity, u64)>,
) -> Sales
    decreases attempts.len(),
{
    if attempts.len() == 0 {
        Sales { lottery, pooled_balance, tickets: Seq::empty() }
    } else {
        let ctx = BuyTicket {
            lottery,
            ticket: None,
            buyer: attempts[0].0,
            buyer_balance: attempts[0].1,
            pooled_balance,
        };
        if ctx.outcome() is Ok {
            let done = ctx.applied(lottery_id);
            let rest = sales(done.lottery, done.pooled_balance, lottery_id, attempts.drop_first());
            Sales { tickets: seq![done.ticket->0].add(rest.tickets), ..rest }
        } else {
            sales(lottery, pooled_balance, lottery_id, attempts.drop_first())
        }
    }
}

/// Ticket ids count up by one from the lottery's ticket count, without
/// gaps or repeats, and the count ends at the id of the last ticket
/// issued; every ticket issued has put one price into the pool. On a new
/// lottery the ids are exactly 1 up to the final ticket count.
pub proof fn lemma_ticket_ids_count_up(
    lottery: Lottery,
    pooled_balance: u64,
    lottery_id: u32,
    attempts: Seq<(Identity, u64)>,
)
    requires
        lottery.last_ticket_id + attempts.len() <= u32::MAX,
        pooled_balance + attempts.len() * lottery.ticket_price <= u64::MAX,
    ensures
        ({
            let run = sales(lottery, pooled_balance, lottery_id, attempts);
            &&& run.tickets.len() <= attempts.len()
            &&& run.lottery.last_ticket_id == lottery.last_ticket_id + run.tickets.len()
            &&& run.pooled_balance == pooled_balance + run.tickets.len() * lottery.ticket_price
            &&& lottery.may_become(run.lottery)
            &&& forall|k: int|
                0 <= k < run.tickets.len() ==> {
                    let ticket = #[trigger] run.tickets[k];
                    &&& ticket.id == lottery.last_ticket_id + k + 1
                    &&& ticket.lottery_id == lottery_id
                }
            &&& forall|j: int, k: int|
                0 <= j < k < run.tickets.len() ==> (#[trigger] run.tickets[j]).id
                    != (#[trigger] run.tickets[k]).id
        }),
    decreases attempts.len(),
{
    if attempts.len() > 0 {
        let price = lottery.ticket_price;
        let rest = attempts.drop_first();
        assert(pooled_balance + price + rest.len() * price == pooled_balance + attempts.len()
            * price) by (nonlinear_arith)
            requires
                rest.len() + 1 == attempts.len(),
        ;
        assert(rest.len() * price >= 0) by (nonlinear_arith)
            requires
                price >= 0,
        ;
        let ctx = BuyTicket {
            lottery,
            ticket: None,
            buyer: attempts[0].0,
            buyer_balance: attempts[0].1,
            pooled_balance,
        };
        if ctx.outcome() is Ok {
            let done = ctx.applied(lottery_id);
            lemma_ticket_ids_count_up(done.lottery, done.pooled_balance, lottery_id, rest);
            let later = sales(done.lottery, done.pooled_balance, lottery_id, rest);
            let run = sales(lottery, pooled_balance, lottery_id, attempts);
            assert(run.tickets =~= seq![done.ticket->0].add(later.tickets));
            assert(pooled_balance + price + later.tickets.len() * price == pooled_balance + (
            later.tickets.len() + 1) * price) by (nonlinear_arith);
            assert forall|k: int| 0 <= k < run.tickets.len() implies {
                let ticket = #[trigger] run.tickets[k];
                &&& ticket.id == lottery.last_ticket_id + k + 1
                &&& ticket.lottery_id == lottery_id
            } by {
                if k > 0 {
                    assert(run.tickets[k] == later.tickets[k - 1]);
                }
            }
        } else {
            lemma_ticket_ids_count_up(lottery, pooled_balance, lottery_id, rest);
        }
    }
}

/// Once a lottery has its winner, no purchase attempt issues a ticket or
/// moves funds, whoever tries and whatever they own.
pub proof fn lemma_no_sale_after_the_draw(
    lottery: Lottery,
    pooled_balance: u64,
    lottery_id: u32,
    attempts: Seq<(Identity, u64)>,
)
    requires
        lottery.winner_id is Some,
    ensures
        sales(lottery, pooled_balance, lottery_id, attempts) == (Sales {
            lottery,
            pooled_balance,
            tickets: Seq::empty(),
        }),
    decreases attempts.len(),
{
    if attempts.len() > 0 {
        lemma_no_sale_after_the_draw(lottery, pooled_balance, lottery_id, attempts.drop_first());
    }
}

/// A draw by the authority on a lottery without tickets is refused for
/// that reason.
pub proof fn lemma_no_draw_without_tickets(ctx: PickWinner)
    requires
        ctx.authority == ctx.lottery.authority,
        ctx.lottery.last_ticket_id == 0,
    ensures
        ctx.outcome() == Err::<(), LotteryError>(LotteryError::NoTickets),
{
}

/// A lottery is drawn at most once: after a successful draw, every further
/// draw is refused, on the lottery as the draw left it and on every later
/// state of it, and one by the authority is refused because the winner
/// exists.
pub proof fn lemma_second_draw_is_refused(
    ctx: PickWinner,
    winner: u32,
    later: Lottery,
    caller: Identity,
)
    requires
        ctx.outcome() is Ok,
        ctx.applied(winner).lottery.may_become(later),
    ensures
        (PickWinner { lottery: later, authority: caller }).outcome() is Err,
        caller == later.authority ==> (PickWinner { lottery: later, authority: caller }).outcome()
            == Err::<(), LotteryError>(LotteryError::WinnerAlreadyExists),
{
}

/// A prize is paid at most once: after a successful claim, every further
/// claim is refused, on the lottery as the claim left it and on every
/// later state of it, whatever ticket is presented and whatever the pool
/// holds by then. Presented with the winning ticket again, it is refused
/// because the prize was claimed.
pub proof fn lemma_claim_succeeds_once(
    ctx: Claim,
    later: Lottery,
    ticket: Ticket,
    pooled_balance: u64,
)
    requires
        ctx.outcome() is Ok,
        ctx.applied().lottery.may_become(later),
    ensures
        (Claim { lottery: later, ticket, pooled_balance }).outcome() is Err,
        ticket.id == ctx.ticket.id ==> (Claim { lottery: later, ticket, pooled_balance }).outcome()
            == Err::<FundTransfer, LotteryError>(LotteryError::AlreadyClaimed),
{
}

/// A claim with a ticket other than the winning one is refused for that
/// reason, before or after the prize was paid.
pub proof fn lemma_only_the_winner_claims(ctx: Claim)
    requires
        ctx.lottery.winner_id is Some,
        ctx.lottery.winner_id != Some(ctx.ticket.id),
    ensures
        ctx.outcome() == Err::<FundTransfer, LotteryError>(
            LotteryError::InvalidWinner,
        ),
{
}

/// The order of a lottery's states is reflexive and transitive: what holds
/// of one step holds of any run of steps.
pub proof fn lemma_may_become_is_a_preorder(a: Lottery, b: Lottery, c: Lottery)
    ensures
        a.may_become(a),
        a.may_become(b) && b.may_become(c) ==> a.may_become(c),
{
}

} // verus!
