//! The score line shown at the top of the screen.
//!
//! The game prints each score, an integral float, with the standard
//! formatting, which writes such a value as its decimal digits with no
//! fraction; the two scores are separated by nine spaces.
use vstd::prelude::*;
use crate::score::Scoreboard;

verus! {

/// The character of a decimal digit.
pub open spec fn digit_char(d: nat) -> char
    recommends
        d < 10,
{
    seq!['0', '1', '2', '3', '4', '5', '6', '7', '8', '9'][d as int]
}

/// The value of a decimal digit character.
pub open spec fn digit_value(c: char) -> nat {
    if '0' <= c <= '9' {
        (c as u32 - '0' as u32) as nat
    } else {
        0
    }
}

/// The decimal digits of `n`, most significant first, without leading zeros.
pub open spec fn decimal(n: nat) -> Seq<char>
    decreases n,
{
    if n < 10 {
        seq![digit_char(n)]
    } else {
        decimal(n / 10).push(digit_char(n % 10))
    }
}

/// The number that a string of decimal digits stands for.
pub open spec fn digits_value(s: Seq<char>) -> nat
    decreases s.len(),
{
    if s.len() == 0 {
        0
    } else {
        digits_value(s.drop_last()) * 10 + digit_value(s.last())
    }
}

/// The space between the two scores on the score line.
pub open spec fn score_gap() -> Seq<char> {
    seq![' ', ' ', ' ', ' ', ' ', ' ', ' ', ' ', ' ']
}

/// The score line for the given scores.
pub open spec fn score_line(player_1: nat, player_2: nat) -> Seq<char> {
    decimal(player_1) + score_gap() + decimal(player_2)
}

/// The one-character string of a decimal digit.
fn digit_str(d: u32) -> (s: &'static str)
    requires
        d < 10,
    ensures
        s@ == seq![digit_char(d as nat)],
{
    match d {
        0 => {
            proof { reveal_strlit("0"); }
            "0"
        },
        1 => {
            proof { reveal_strlit("1"); }
            "1"
        },
        2 => {
            proof { reveal_strlit("2"); }
            "2"
        },
        3 => {
            proof { reveal_strlit("3"); }
            "3"
        },
        4 => {
            proof { reveal_strlit("4"); }
            "4"
        },
        5 => {
            proof { reveal_strlit("5"); }
            "5"
        },
        6 => {
            proof { reveal_strlit("6"); }
            "6"
        },
        7 => {
            proof { reveal_strlit("7"); }
            "7"
        },
        8 => {
            proof { reveal_strlit("8"); }
            "8"
        },
        _ => {
            proof { reveal_strlit("9"); }
            "9"
        },
    }
}

/// Writes `n` in decimal.
pub fn decimal_string(n: u32) -> (s: String)
    ensures
        s@ == decimal(n as nat),
    decreases n,
{
    if n < 10 {
        String::from_str(digit_str(n))
    } else {
        let mut s = decimal_string(n / 10);
        s.append(digit_str(n % 10));
        s
    }
}

/// The text of the score line: player one's score, nine spaces, player
/// two's score.
pub fn score_text(board: &Scoreboard) -> (s: String)
    ensures
        s@ == score_line(board@.0, board@.1),
{
    let mut s = decimal_string(board.player_1());
    proof { reveal_strlit("         "); }
    s.append("         ");
    let right = decimal_string(board.player_2());
    s.append(right.as_str());
    s
}

proof fn digit_round_trip(d: nat)
    requires
        d < 10,
    ensures
        digit_value(digit_char(d)) == d,
        '0' <= digit_char(d) <= '9',
{
    let ds = seq!['0', '1', '2', '3', '4', '5', '6', '7', '8', '9'];
    assert(ds[0] == '0' && ds[1] == '1' && ds[2] == '2' && ds[3] == '3' && ds[4] == '4');
    assert(ds[5] == '5' && ds[6] == '6' && ds[7] == '7' && ds[8] == '8' && ds[9] == '9');
}

/// Reading the decimal digits of `n` back gives `n`, and every character of
/// them is a digit.
pub proof fn decimal_reads_back(n: nat)
    ensures
        digits_value(decimal(n)) == n,
        forall|i: int| 0 <= i < decimal(n).len() ==> '0' <= #[trigger] decimal(n)[i] <= '9',
    decreases n,
{
    if n < 10 {
        digit_round_trip(n);
        assert(decimal(n).drop_last() =~= Seq::<char>::empty());
        assert(digits_value(Seq::<char>::empty()) == 0);
        assert(digits_value(decimal(n)) == digits_value(decimal(n).drop_last()) * 10 + digit_value(decimal(n).last()));
    } else {
        decimal_reads_back(n / 10);
        digit_round_trip(n % 10);
        let s = decimal(n);
        assert(s.drop_last() =~= decimal(n / 10));
        assert(s.last() == digit_char(n % 10));
        assert(n == (n / 10) * 10 + n % 10);
        assert(digits_value(s) == digits_value(s.drop_last()) * 10 + digit_value(s.last()));
        assert forall|i: int| 0 <= i < s.len() implies '0' <= #[trigger] s[i] <= '9' by {
            if i < s.len() - 1 {
                assert(s[i] == decimal(n / 10)[i]);
            }
        }
    }
}

/// Different numbers are written differently.
pub proof fn decimal_is_one_to_one(m: nat, n: nat)
    requires
        decimal(m) == decimal(n),
    ensures
        m == n,
{
    decimal_reads_back(m);
    decimal_reads_back(n);
}

/// The score line determines both scores: it can be read back without
/// confusing one player's score with the other's.
pub proof fn score_line_is_one_to_one(a1: nat, a2: nat, b1: nat, b2: nat)
    requires
        score_line(a1, a2) == score_line(b1, b2),
    ensures
        a1 == b1,
        a2 == b2,
{
    decimal_reads_back(a1);
    decimal_reads_back(b1);
    let la = decimal(a1).len();
    let lb = decimal(b1).len();
    let sa = score_line(a1, a2);
    let sb = score_line(b1, b2);
    if la < lb {
        assert(sa[la as int] == ' ');
        assert(sb[la as int] == decimal(b1)[la as int]);
    } else if lb < la {
        assert(sb[lb as int] == ' ');
        assert(sa[lb as int] == decimal(a1)[lb as int]);
    }
    assert(la == lb);
    assert(decimal(a1) =~= sa.subrange(0, la as int));
    assert(decimal(b1) =~= sb.subrange(0, lb as int));
    decimal_is_one_to_one(a1, b1);
    assert(decimal(a2) =~= sa.subrange(la + 9int, sa.len() as int));
    assert(decimal(b2) =~= sb.subrange(lb + 9int, sb.len() as int));
    decimal_is_one_to_one(a2, b2);
}

} // verus!
