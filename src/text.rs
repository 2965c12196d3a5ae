//! The score line and the end-of-game message, as ASCII bytes.
use vstd::prelude::*;

use crate::pong::{game_over_outcome, Game, GameWinner, Outcome};

verus! {

/// The decimal digits of `n`, most significant first, as ASCII (48 is `0`).
pub open spec fn decimal(n: nat) -> Seq<u8>
    decreases n,
{
    if n < 10 {
        seq![(48 + n) as u8]
    } else {
        decimal(n / 10).push((48 + n % 10) as u8)
    }
}

/// `Score: `
pub open spec fn score_prefix() -> Seq<u8> {
    seq![83u8, 99, 111, 114, 101, 58, 32]
}

/// `You won! `
pub open spec fn won_prefix() -> Seq<u8> {
    seq![89u8, 111, 117, 32, 119, 111, 110, 33, 32]
}

/// `You lost! `
pub open spec fn lost_prefix() -> Seq<u8> {
    seq![89u8, 111, 117, 32, 108, 111, 115, 116, 33, 32]
}

/// Appends the decimal digits of `n` to `out`.
fn push_decimal(n: u64, out: &mut Vec<u8>)
    ensures
        final(out)@ == old(out)@ + decimal(n as nat),
    decreases n,
{
    if n < 10 {
        out.push((48 + n) as u8);
        assert(final(out)@ =~= old(out)@ + decimal(n as nat));
    } else {
        push_decimal(n / 10, out);
        out.push((48 + n % 10) as u8);
        assert(final(out)@ =~= old(out)@ + decimal(n as nat));
    }
}

fn push_all(bytes: &[u8], out: &mut Vec<u8>)
    ensures
        final(out)@ == old(out)@ + bytes@,
{
    let mut i: usize = 0;
    while i < bytes.len()
        invariant
            i <= bytes@.len(),
            out@ == old(out)@ + bytes@.subrange(0, i as int),
        decreases bytes@.len() - i,
    {
        out.push(bytes[i]);
        i = i + 1;
        assert(out@ =~= old(out)@ + bytes@.subrange(0, i as int));
    }
    assert(bytes@.subrange(0, bytes@.len() as int) =~= bytes@);
}

/// The score line: `Score: ` and the score in decimal.
pub fn update_score(game: &Game) -> (r: Vec<u8>)
    ensures
        r@ == score_prefix() + decimal(game.score as nat),
{
    let mut out: Vec<u8> = Vec::new();
    let prefix: [u8; 7] = [83, 99, 111, 114, 101, 58, 32];
    push_all(&prefix, &mut out);
    assert(prefix@ =~= score_prefix());
    push_decimal(game.score, &mut out);
    out
}

/// The end-of-game message for the human on the left: `You won! ` or
/// `You lost! `, then the score line.
pub fn game_over_text(game: &Game) -> (r: Vec<u8>)
    ensures
        r@ == (if game.winner == GameWinner::Player1 {
            won_prefix()
        } else {
            lost_prefix()
        }) + score_prefix() + decimal(game.score as nat),
{
    let mut out: Vec<u8> = Vec::new();
    match game_over_outcome(game) {
        Outcome::Won => {
            let won: [u8; 9] = [89, 111, 117, 32, 119, 111, 110, 33, 32];
            push_all(&won, &mut out);
            assert(won@ =~= won_prefix());
        },
        Outcome::Lost => {
            let lost: [u8; 10] = [89, 111, 117, 32, 108, 111, 115, 116, 33, 32];
            push_all(&lost, &mut out);
            assert(lost@ =~= lost_prefix());
        },
    }
    let score = update_score(game);
    push_all(score.as_slice(), &mut out);
    out
}

} // verus!
