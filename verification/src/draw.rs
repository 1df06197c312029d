use vstd::prelude::*;

verus! {

/// The modulus applied to the scaled digest before it is reduced to a
/// ticket id: the largest 32-bit unsigned value.
pub const DRAW_MODULUS: u64 = 0xFFFF_FFFF;

/// The SHA-256 digest of `data`: 32 bytes.
pub uninterp spec fn sha256(data: Seq<u8>) -> Seq<u8>;

/// The 64-bit pattern that stands for `t` in two's complement.
pub open spec fn twos_complement(t: i64) -> int {
    if t >= 0 {
        t as int
    } else {
        t + 0x1_0000_0000_0000_0000
    }
}

/// The eight bytes of `t`, most significant first.
pub open spec fn be_bytes(t: i64) -> Seq<u8> {
    let u = twos_complement(t);
    seq![
        (u / 0x100_0000_0000_0000 % 256) as u8,
        (u / 0x1_0000_0000_0000 % 256) as u8,
        (u / 0x100_0000_0000 % 256) as u8,
        (u / 0x1_0000_0000 % 256) as u8,
        (u / 0x100_0000 % 256) as u8,
        (u / 0x1_0000 % 256) as u8,
        (u / 0x100 % 256) as u8,
        (u % 256) as u8,
    ]
}

/// The number that the first eight bytes of `bytes` spell, least
/// significant first.
pub open spec fn le_u64(bytes: Seq<u8>) -> int
    recommends
        bytes.len() >= 8,
{
    bytes[0] + bytes[1] * 0x100 + bytes[2] * 0x1_0000 + bytes[3] * 0x100_0000 + bytes[4]
        * 0x1_0000_0000 + bytes[5] * 0x100_0000_0000 + bytes[6] * 0x1_0000_0000_0000 + bytes[7]
        * 0x100_0000_0000_0000
}

/// The ticket that a digest selects among `tickets` sold ones: the digest's
/// leading number times the slot, reduced first by the draw modulus, then
/// by the number of tickets, and moved into `1..=tickets`.
pub open spec fn winner_of_digest(digest: Seq<u8>, slot: u64, tickets: u32) -> int
    recommends
        digest.len() >= 8,
        tickets >= 1,
{
    ((le_u64(digest) * slot) % (DRAW_MODULUS as int)) % (tickets as int) + 1
}

/// The ticket that wins among `tickets` sold ones when the draw happens at
/// the given clock reading.
pub open spec fn winner_at(unix_timestamp: i64, slot: u64, tickets: u32) -> int
    recommends
        tickets >= 1,
{
    winner_of_digest(sha256(be_bytes(unix_timestamp)), slot, tickets)
}

/// Whatever the digest and the slot, the selected ticket is one of those
/// sold.
pub proof fn lemma_winner_is_a_sold_ticket(digest: Seq<u8>, slot: u64, tickets: u32)
    requires
        tickets >= 1,
    ensures
        1 <= winner_of_digest(digest, slot, tickets) <= tickets,
{
}

/// SHA-256 as `anchor_lang::solana_program::hash::hash` computes it, with
/// the digest taken out of the returned `Hash` by `to_bytes`. The contract
/// only gives the digest its name; nothing is claimed about its bytes.
#[verifier::external_body]
fn sha256_digest(data: &[u8]) -> (digest: [u8; 32])
    ensures
        digest@ == sha256(data@),
{
    anchor_lang::solana_program::hash::hash(data).to_bytes()
}

/// The eight bytes of `t`, most significant first.
pub fn timestamp_bytes(t: i64) -> (bytes: [u8; 8])
    ensures
        bytes@ == be_bytes(t),
{
    let u: u64 = if t >= 0 {
        t as u64
    } else {
        (t - i64::MIN) as u64 + 0x8000_0000_0000_0000u64
    };
    assert(u == twos_complement(t));
    let bytes: [u8; 8] = [
        (u / 0x100_0000_0000_0000 % 256) as u8,
        (u / 0x1_0000_0000_0000 % 256) as u8,
        (u / 0x100_0000_0000 % 256) as u8,
        (u / 0x1_0000_0000 % 256) as u8,
        (u / 0x100_0000 % 256) as u8,
        (u / 0x1_0000 % 256) as u8,
        (u / 0x100 % 256) as u8,
        (u % 256) as u8,
    ];
    assert(bytes@ =~= be_bytes(t));
    bytes
}

/// The number that the first eight bytes of a digest spell, least
/// significant first.
pub fn leading_u64(digest: &[u8; 32]) -> (r: u64)
    ensures
        r == le_u64(digest@),
{
    let b0: u64 = digest[0] as u64;
    let b1: u64 = digest[1] as u64;
    let b2: u64 = digest[2] as u64;
    let b3: u64 = digest[3] as u64;
    let b4: u64 = digest[4] as u64;
    let b5: u64 = digest[5] as u64;
    let b6: u64 = digest[6] as u64;
    let b7: u64 = digest[7] as u64;
    b0 + b1 * 0x100 + b2 * 0x1_0000 + b3 * 0x100_0000 + b4 * 0x1_0000_0000 + b5 * 0x100_0000_0000
        + b6 * 0x1_0000_0000_0000 + b7 * 0x100_0000_0000_0000
}

/// Selects the winning ticket from a digest that was computed before.
pub fn winner_from_digest(digest: &[u8; 32], slot: u64, tickets: u32) -> (winner: u32)
    requires
        tickets >= 1,
    ensures
        winner == winner_of_digest(digest@, slot, tickets),
        1 <= winner <= tickets,
{
    let r: u64 = leading_u64(digest);
    assert(r * slot <= 0xFFFF_FFFF_FFFF_FFFF * 0xFFFF_FFFF_FFFF_FFFF) by (nonlinear_arith)
        requires
            0 <= r <= 0xFFFF_FFFF_FFFF_FFFF,
            0 <= slot <= 0xFFFF_FFFF_FFFF_FFFF,
    ;
    let product: u128 = (r as u128) * (slot as u128);
    let reduced: u32 = (product % (DRAW_MODULUS as u128)) as u32;
    reduced % tickets + 1
}

/// Draws the winning ticket among `tickets` sold ones from the clock
/// reading of the draw.
///
/// The outcome is fixed by the inputs, and whoever can choose or predict
/// the clock reading can choose or predict the winner: this is a
/// reproducible draw, not a secret one.
pub fn draw_winner(unix_timestamp: i64, slot: u64, tickets: u32) -> (winner: u32)
    requires
        tickets >= 1,
    ensures
        winner == winner_at(unix_timestamp, slot, tickets),
        1 <= winner <= tickets,
{
    let bytes = timestamp_bytes(unix_timestamp);
    let digest = sha256_digest(bytes.as_slice());
    winner_from_digest(&digest, slot, tickets)
}

} // verus!
