use lottery::{
    buy_ticket, claim, create_lottery, init_master, pick_winner, BuyTicket, Claim, CreateLottery,
    FundTransfer, Identity, InitMaster, Lottery, LotteryError, Master, PickWinner, Ticket,
};

fn who(tag: u8) -> Identity {
    Identity::new([tag; 32])
}

fn lottery_with(last_ticket_id: u32, winner_id: Option<u32>, claimed: bool) -> Lottery {
    Lottery { id: 4, authority: who(1), ticket_price: 100, last_ticket_id, winner_id, claimed }
}

#[test]
fn identities_compare_by_their_bytes() {
    assert_eq!(who(1), who(1));
    assert_ne!(who(1), who(2));
    let mut bytes = [9u8; 32];
    bytes[31] = 8;
    assert_ne!(Identity::new(bytes), who(9));
    assert_eq!(Identity::new(bytes).to_bytes(), bytes);
}

#[test]
fn init_master_creates_a_counter_at_zero() {
    let mut ctx = InitMaster { master: None };
    assert_eq!(init_master(&mut ctx), Ok(()));
    assert_eq!(ctx.master, Some(Master { last_id: 0 }));
}

#[test]
fn init_master_twice_is_refused() {
    let mut ctx = InitMaster { master: None };
    assert_eq!(init_master(&mut ctx), Ok(()));
    assert_eq!(init_master(&mut ctx), Err(LotteryError::AlreadyInitialized));
    assert_eq!(ctx.master, Some(Master { last_id: 0 }));
}

#[test]
fn init_master_keeps_an_existing_counter() {
    let mut ctx = InitMaster { master: Some(Master { last_id: 17 }) };
    assert_eq!(init_master(&mut ctx), Err(LotteryError::AlreadyInitialized));
    assert_eq!(ctx.master, Some(Master { last_id: 17 }));
}

#[test]
fn create_lottery_takes_the_next_id() {
    let mut ctx = CreateLottery { lottery: None, master: Master { last_id: 0 }, authority: who(1) };
    assert_eq!(create_lottery(&mut ctx, 100), Ok(()));
    assert_eq!(ctx.master, Master { last_id: 1 });
    assert_eq!(
        ctx.lottery,
        Some(Lottery {
            id: 1,
            authority: who(1),
            ticket_price: 100,
            last_ticket_id: 0,
            winner_id: None,
            claimed: false,
        })
    );
    assert_eq!(ctx.authority, who(1));
}

#[test]
fn create_lottery_ids_count_up() {
    let mut master = Master { last_id: 0 };
    for expected in 1..=20u32 {
        let mut ctx = CreateLottery { lottery: None, master, authority: who(expected as u8) };
        assert_eq!(create_lottery(&mut ctx, 5), Ok(()));
        assert_eq!(ctx.lottery.unwrap().id, expected);
        assert_eq!(ctx.master.last_id, expected);
        master = ctx.master;
    }
}

#[test]
fn create_lottery_accepts_price_zero() {
    let mut ctx = CreateLottery { lottery: None, master: Master { last_id: 8 }, authority: who(3) };
    assert_eq!(create_lottery(&mut ctx, 0), Ok(()));
    assert_eq!(ctx.lottery.unwrap().ticket_price, 0);
    assert_eq!(ctx.lottery.unwrap().id, 9);
}

#[test]
fn create_lottery_accepts_the_highest_price() {
    let mut ctx = CreateLottery { lottery: None, master: Master { last_id: 0 }, authority: who(3) };
    assert_eq!(create_lottery(&mut ctx, u64::MAX), Ok(()));
    assert_eq!(ctx.lottery.unwrap().ticket_price, u64::MAX);
}

#[test]
fn create_lottery_reaches_the_highest_id() {
    let mut ctx =
        CreateLottery { lottery: None, master: Master { last_id: u32::MAX - 1 }, authority: who(3) };
    assert_eq!(create_lottery(&mut ctx, 1), Ok(()));
    assert_eq!(ctx.master.last_id, u32::MAX);
    assert_eq!(ctx.lottery.unwrap().id, u32::MAX);
}

#[test]
fn create_lottery_on_an_occupied_place_changes_nothing() {
    let there = lottery_with(2, None, false);
    let before =
        CreateLottery { lottery: Some(there), master: Master { last_id: 3 }, authority: who(7) };
    let mut ctx = before;
    assert_eq!(create_lottery(&mut ctx, 55), Err(LotteryError::AddressCollision));
    assert_eq!(ctx, before);
}

#[test]
fn create_lottery_on_an_occupied_place_is_refused_at_the_highest_counter() {
    let there = lottery_with(0, None, false);
    let before =
        CreateLottery { lottery: Some(there), master: Master { last_id: u32::MAX }, authority: who(7) };
    let mut ctx = before;
    assert_eq!(create_lottery(&mut ctx, 55), Err(LotteryError::AddressCollision));
    assert_eq!(ctx, before);
}

#[test]
fn buy_ticket_issues_the_next_ticket_and_moves_the_price() {
    let mut ctx = BuyTicket {
        lottery: lottery_with(2, None, false),
        ticket: None,
        buyer: who(9),
        buyer_balance: 250,
        pooled_balance: 200,
    };
    assert_eq!(buy_ticket(&mut ctx, 4), Ok(()));
    assert_eq!(ctx.lottery, lottery_with(3, None, false));
    assert_eq!(ctx.ticket, Some(Ticket { id: 3, lottery_id: 4, authority: who(9) }));
    assert_eq!(ctx.buyer, who(9));
    assert_eq!(ctx.buyer_balance, 150);
    assert_eq!(ctx.pooled_balance, 300);
}

#[test]
fn buy_ticket_with_the_exact_price_empties_the_buyer() {
    let mut ctx = BuyTicket {
        lottery: lottery_with(0, None, false),
        ticket: None,
        buyer: who(9),
        buyer_balance: 100,
        pooled_balance: 0,
    };
    assert_eq!(buy_ticket(&mut ctx, 4), Ok(()));
    assert_eq!(ctx.buyer_balance, 0);
    assert_eq!(ctx.pooled_balance, 100);
    assert_eq!(ctx.ticket.unwrap().id, 1);
}

#[test]
fn buy_ticket_in_a_free_lottery_moves_nothing() {
    let mut lottery = lottery_with(0, None, false);
    lottery.ticket_price = 0;
    let mut ctx =
        BuyTicket { lottery, ticket: None, buyer: who(9), buyer_balance: 0, pooled_balance: 0 };
    assert_eq!(buy_ticket(&mut ctx, 4), Ok(()));
    assert_eq!(ctx.buyer_balance, 0);
    assert_eq!(ctx.pooled_balance, 0);
    assert_eq!(ctx.lottery.last_ticket_id, 1);
    assert_eq!(ctx.ticket, Some(Ticket { id: 1, lottery_id: 4, authority: who(9) }));
}

#[test]
fn buy_ticket_refers_back_to_the_id_given() {
    let mut ctx = BuyTicket {
        lottery: lottery_with(0, None, false),
        ticket: None,
        buyer: who(9),
        buyer_balance: 100,
        pooled_balance: 0,
    };
    assert_eq!(buy_ticket(&mut ctx, 77), Ok(()));
    assert_eq!(ctx.ticket.unwrap().lottery_id, 77);
}

#[test]
fn buy_ticket_after_the_draw_changes_nothing() {
    let before = BuyTicket {
        lottery: lottery_with(3, Some(2), false),
        ticket: None,
        buyer: who(9),
        buyer_balance: 1000,
        pooled_balance: 300,
    };
    let mut ctx = before;
    assert_eq!(buy_ticket(&mut ctx, 4), Err(LotteryError::WinnerAlreadyExists));
    assert_eq!(ctx, before);
}

#[test]
fn buy_ticket_after_the_draw_is_refused_for_that_reason_first() {
    // No funds and an occupied place as well: the draw still decides.
    let before = BuyTicket {
        lottery: lottery_with(3, Some(2), true),
        ticket: Some(Ticket { id: 4, lottery_id: 4, authority: who(5) }),
        buyer: who(9),
        buyer_balance: 0,
        pooled_balance: u64::MAX,
    };
    let mut ctx = before;
    assert_eq!(buy_ticket(&mut ctx, 4), Err(LotteryError::WinnerAlreadyExists));
    assert_eq!(ctx, before);
}

#[test]
fn buy_ticket_without_funds_changes_nothing() {
    let before = BuyTicket {
        lottery: lottery_with(3, None, false),
        ticket: None,
        buyer: who(9),
        buyer_balance: 99,
        pooled_balance: 300,
    };
    let mut ctx = before;
    assert_eq!(buy_ticket(&mut ctx, 4), Err(LotteryError::InsufficientFunds));
    assert_eq!(ctx, before);
    assert_eq!(ctx.lottery.last_ticket_id, 3);
}

#[test]
fn buy_ticket_on_an_occupied_place_changes_nothing() {
    let before = BuyTicket {
        lottery: lottery_with(3, None, false),
        ticket: Some(Ticket { id: 4, lottery_id: 4, authority: who(5) }),
        buyer: who(9),
        buyer_balance: 1000,
        pooled_balance: 300,
    };
    let mut ctx = before;
    assert_eq!(buy_ticket(&mut ctx, 4), Err(LotteryError::AddressCollision));
    assert_eq!(ctx, before);
}

#[test]
fn buy_ticket_ids_count_up() {
    let mut lottery = lottery_with(0, None, false);
    let mut pool = 0u64;
    let mut seen = Vec::new();
    for n in 1..=25u32 {
        let mut ctx = BuyTicket {
            lottery,
            ticket: None,
            buyer: who(n as u8),
            buyer_balance: 100,
            pooled_balance: pool,
        };
        assert_eq!(buy_ticket(&mut ctx, 4), Ok(()));
        let ticket = ctx.ticket.unwrap();
        assert_eq!(ticket.id, n);
        assert!(!seen.contains(&ticket.id));
        seen.push(ticket.id);
        lottery = ctx.lottery;
        pool = ctx.pooled_balance;
    }
    assert_eq!(lottery.last_ticket_id, 25);
    assert_eq!(pool, 2500);
}

#[test]
fn pick_winner_by_a_stranger_changes_nothing() {
    let before = PickWinner { lottery: lottery_with(3, None, false), authority: who(2) };
    let mut ctx = before;
    assert_eq!(pick_winner(&mut ctx, 4, 1_700_000_000, 5), Err(LotteryError::Unauthorized));
    assert_eq!(ctx, before);
}

#[test]
fn pick_winner_by_a_stranger_is_refused_for_that_reason_first() {
    let before = PickWinner { lottery: lottery_with(0, None, false), authority: who(2) };
    let mut ctx = before;
    assert_eq!(pick_winner(&mut ctx, 4, 1_700_000_000, 5), Err(LotteryError::Unauthorized));
    assert_eq!(ctx, before);
}

#[test]
fn pick_winner_without_tickets_changes_nothing() {
    let before = PickWinner { lottery: lottery_with(0, None, false), authority: who(1) };
    let mut ctx = before;
    assert_eq!(pick_winner(&mut ctx, 4, 1_700_000_000, 5), Err(LotteryError::NoTickets));
    assert_eq!(ctx, before);
}

#[test]
fn pick_winner_records_the_drawn_ticket() {
    let mut ctx = PickWinner { lottery: lottery_with(3, None, false), authority: who(1) };
    assert_eq!(pick_winner(&mut ctx, 4, 1_700_000_000, 250_000_000), Ok(()));
    assert_eq!(ctx.lottery, lottery_with(3, Some(2), false));
    assert_eq!(ctx.authority, who(1));
}

#[test]
fn pick_winner_twice_is_refused() {
    let mut ctx = PickWinner { lottery: lottery_with(1000, None, false), authority: who(1) };
    assert_eq!(pick_winner(&mut ctx, 4, 0, 1), Ok(()));
    assert_eq!(ctx.lottery.winner_id, Some(26));
    let before = ctx;
    assert_eq!(pick_winner(&mut ctx, 4, 1, 2), Err(LotteryError::WinnerAlreadyExists));
    assert_eq!(ctx, before);
}

#[test]
fn pick_winner_stays_within_the_tickets_sold() {
    for t in 0..100i64 {
        let mut ctx = PickWinner { lottery: lottery_with(6, None, false), authority: who(1) };
        assert_eq!(pick_winner(&mut ctx, 4, t, 31_337), Ok(()));
        let w = ctx.lottery.winner_id.unwrap();
        assert!(1 <= w && w <= 6);
    }
}

#[test]
fn claim_before_the_draw_changes_nothing() {
    let before = Claim {
        lottery: lottery_with(3, None, false),
        ticket: Ticket { id: 1, lottery_id: 4, authority: who(9) },
        pooled_balance: 300,
    };
    let mut ctx = before;
    assert_eq!(claim(&mut ctx, 4), Err(LotteryError::WinnerNotChosen));
    assert_eq!(ctx, before);
}

#[test]
fn claim_with_a_losing_ticket_changes_nothing() {
    let before = Claim {
        lottery: lottery_with(3, Some(2), false),
        ticket: Ticket { id: 1, lottery_id: 4, authority: who(9) },
        pooled_balance: 300,
    };
    let mut ctx = before;
    assert_eq!(claim(&mut ctx, 4), Err(LotteryError::InvalidWinner));
    assert_eq!(ctx, before);
}

#[test]
fn claim_pays_the_pool_to_the_winner() {
    let mut ctx = Claim {
        lottery: lottery_with(3, Some(2), false),
        ticket: Ticket { id: 2, lottery_id: 4, authority: who(9) },
        pooled_balance: 300,
    };
    assert_eq!(claim(&mut ctx, 4), Ok(FundTransfer { recipient: who(9), amount: 300 }));
    assert_eq!(ctx.lottery, lottery_with(3, Some(2), true));
    assert_eq!(ctx.pooled_balance, 0);
    assert_eq!(ctx.ticket, Ticket { id: 2, lottery_id: 4, authority: who(9) });
}

#[test]
fn claim_twice_is_refused() {
    let mut ctx = Claim {
        lottery: lottery_with(3, Some(2), false),
        ticket: Ticket { id: 2, lottery_id: 4, authority: who(9) },
        pooled_balance: 300,
    };
    assert!(claim(&mut ctx, 4).is_ok());
    let before = ctx;
    assert_eq!(claim(&mut ctx, 4), Err(LotteryError::AlreadyClaimed));
    assert_eq!(ctx, before);
}

#[test]
fn claim_with_a_losing_ticket_after_the_payout_is_refused_for_the_ticket() {
    let before = Claim {
        lottery: lottery_with(3, Some(2), true),
        ticket: Ticket { id: 3, lottery_id: 4, authority: who(9) },
        pooled_balance: 0,
    };
    let mut ctx = before;
    assert_eq!(claim(&mut ctx, 4), Err(LotteryError::InvalidWinner));
    assert_eq!(ctx, before);
}

#[test]
fn claim_of_an_empty_pool_pays_nothing() {
    let mut ctx = Claim {
        lottery: lottery_with(1, Some(1), false),
        ticket: Ticket { id: 1, lottery_id: 4, authority: who(9) },
        pooled_balance: 0,
    };
    assert_eq!(claim(&mut ctx, 4), Ok(FundTransfer { recipient: who(9), amount: 0 }));
    assert!(ctx.lottery.claimed);
}

#[test]
fn every_error_has_its_message() {
    assert_eq!(LotteryError::WinnerAlreadyExists.message(), "Winner Already Exists");
    assert_eq!(
        LotteryError::NoTickets.message(),
        "Can't choose a winner when there are no tickets"
    );
    assert_eq!(LotteryError::WinnerNotChosen.message(), "Winner has not been chosen");
    assert_eq!(LotteryError::InvalidWinner.message(), "Invalid Winner");
    assert_eq!(LotteryError::AlreadyClaimed.message(), "The prize has already been claimed");
    let all = [
        LotteryError::AlreadyInitialized,
        LotteryError::AddressCollision,
        LotteryError::WinnerAlreadyExists,
        LotteryError::NoTickets,
        LotteryError::WinnerNotChosen,
        LotteryError::InvalidWinner,
        LotteryError::AlreadyClaimed,
        LotteryError::Unauthorized,
        LotteryError::InsufficientFunds,
    ];
    for (i, a) in all.iter().enumerate() {
        assert!(!a.message().is_empty());
        for b in all.iter().skip(i + 1) {
            assert_ne!(a, b);
            assert_ne!(a.message(), b.message());
        }
    }
}
