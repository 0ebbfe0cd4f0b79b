//! The display strings the game shows: the running score line and the
//! game-over summary. The simulation computes these; the shell only
//! renders them.

use vstd::prelude::*;
use vstd::string::StringExecFns;

verus! {

/// The decimal digit character for `d`.
pub open spec fn spec_digit(d: int) -> char {
    if d == 0 {
        '0'
    } else if d == 1 {
        '1'
    } else if d == 2 {
        '2'
    } else if d == 3 {
        '3'
    } else if d == 4 {
        '4'
    } else if d == 5 {
        '5'
    } else if d == 6 {
        '6'
    } else if d == 7 {
        '7'
    } else if d == 8 {
        '8'
    } else {
        '9'
    }
}

/// The usual decimal notation of `n`, most significant digit first, no
/// leading zeros except for zero itself.
pub open spec fn spec_decimal(n: int) -> Seq<char>
    decreases n,
{
    if n < 10 {
        seq![spec_digit(n)]
    } else {
        spec_decimal(n / 10) + seq![spec_digit(n % 10)]
    }
}

/// The score line shown while playing.
pub open spec fn spec_score_line(n: int) -> Seq<char> {
    "Score: "@ + spec_decimal(n)
}

/// The summary shown on game over.
pub open spec fn spec_game_over_text(n: int) -> Seq<char> {
    "Game Over!\nScore: "@ + spec_decimal(n) + "\nPress Space to Restart"@
}

/// The one-character string for a single decimal digit.
fn digit_str(d: u32) -> (r: &'static str)
    requires
        d < 10,
    ensures
        r@ == seq![spec_digit(d as int)],
{
    proof {
        reveal_strlit("0");
        reveal_strlit("1");
        reveal_strlit("2");
        reveal_strlit("3");
        reveal_strlit("4");
        reveal_strlit("5");
        reveal_strlit("6");
        reveal_strlit("7");
        reveal_strlit("8");
        reveal_strlit("9");
    }
    match d {
        0 => "0",
        1 => "1",
        2 => "2",
        3 => "3",
        4 => "4",
        5 => "5",
        6 => "6",
        7 => "7",
        8 => "8",
        _ => "9",
    }
}

/// Appends the decimal notation of `n` to `s`.
fn push_decimal(s: &mut String, n: u32)
    ensures
        final(s)@ == old(s)@ + spec_decimal(n as int),
    decreases n,
{
    if n >= 10 {
        push_decimal(s, n / 10);
    }
    let d = digit_str(n % 10);
    s.append(d);
    proof {
        if n < 10 {
            assert(old(s)@ + spec_decimal(n as int) =~= old(s)@ + seq![spec_digit(n as int)]);
        } else {
            assert(old(s)@ + spec_decimal(n as int) =~= (old(s)@ + spec_decimal(n as int / 10))
                + seq![spec_digit(n as int % 10)]);
        }
    }
}

/// The score display string, computed from the score alone.
pub fn score_line(score: u32) -> (r: String)
    ensures
        r@ == spec_score_line(score as int),
{
    let mut s = String::from_str("Score: ");
    push_decimal(&mut s, score);
    s
}

/// The game-over display string, computed from the final score alone.
pub fn game_over_text(score: u32) -> (r: String)
    ensures
        r@ == spec_game_over_text(score as int),
{
    let mut s = String::from_str("Game Over!\nScore: ");
    push_decimal(&mut s, score);
    s.append("\nPress Space to Restart");
    proof {
        assert(s@ =~= spec_game_over_text(score as int));
    }
    s
}

} // verus!
