//! State-transition rules of a lottery ledger: a counter that hands out
//! lottery ids, lotteries that sell numbered tickets at a fixed price, a
//! pseudo-random draw of one winning ticket, and a one-time prize claim.
//!
//! Every operation works on a bundle of the records it touches, validates
//! before it mutates, and leaves the bundle untouched when it fails.

pub mod draw;
pub mod error;
pub mod identity;
pub mod laws;
pub mod program;
pub mod records;

pub use error::LotteryError;
pub use identity::Identity;
pub use program::{
    buy_ticket, claim, create_lottery, init_master, pick_winner, BuyTicket, Claim, CreateLottery,
    InitMaster, PickWinner,
};
pub use records::{FundTransfer, Lottery, Master, Ticket};
