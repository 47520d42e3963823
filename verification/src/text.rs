//! Decimal text: what a string of digits means and how a number is written.

use vstd::arithmetic::div_mod::lemma_fundamental_div_mod_converse;
use vstd::prelude::*;
use vstd::string::StringExecFns;

verus! {

/// Whether `c` is one of the ten ASCII digits.
pub open spec fn is_digit(c: char) -> bool {
    48 <= c as u32 <= 57
}

/// The value of the ASCII digit `c`.
pub open spec fn digit_value(c: char) -> nat {
    (c as u32 - 48) as nat
}

/// Whether `s` is one or more ASCII digits.
pub open spec fn all_digits(s: Seq<char>) -> bool {
    s.len() > 0 && forall|i: int| 0 <= i < s.len() ==> is_digit(#[trigger] s[i])
}

/// The number that the digits of `s` write in base ten.
pub open spec fn decimal_value(s: Seq<char>) -> nat
    decreases s.len(),
{
    if s.len() == 0 {
        0
    } else {
        decimal_value(s.drop_last()) * 10 + digit_value(s.last())
    }
}

/// What reading `s` as an unsigned 128-bit decimal number gives: an optional
/// `+`, then digits only, and a value that fits.
pub open spec fn parsed_u128(s: Seq<char>) -> Option<u128> {
    let digits = if s.len() > 0 && s[0] == '+' {
        s.skip(1)
    } else {
        s
    };
    if all_digits(digits) && decimal_value(digits) <= u128::MAX {
        Some(decimal_value(digits) as u128)
    } else {
        None
    }
}

/// The ASCII digit for `d`, a number below ten.
pub open spec fn digit_char(d: nat) -> char {
    if d == 0 {
        '0'
    } else if d == 1 {
        '1'
    } else if d == 2 {
        '2'
    } else if d == 3 {
        '3'
    } else if d == 4 {
        '4'
    } else if d == 5 {
        '5'
    } else if d == 6 {
        '6'
    } else if d == 7 {
        '7'
    } else if d == 8 {
        '8'
    } else {
        '9'
    }
}

/// How `n` is written in base ten, without leading zeros.
pub open spec fn decimal_text(n: nat) -> Seq<char>
    decreases n,
{
    if n < 10 {
        seq![digit_char(n)]
    } else {
        decimal_text(n / 10).push(digit_char(n % 10))
    }
}

/// A share of `tickets` in `total`, in hundredths of a percent, rounded to
/// the nearest and, half-way between two, to the even one.
pub open spec fn hundredths(tickets: nat, total: nat) -> nat {
    let scaled = tickets * 10000;
    let down = scaled / total;
    let rest = scaled % total;
    if 2 * rest > total || (2 * rest == total && down % 2 == 1) {
        down + 1
    } else {
        down
    }
}

/// The chance of winning with `tickets` out of `total` tickets sold, as a
/// percentage with two fractional digits; `0.00%` where either is zero.
///
/// The share is taken exactly, whatever the size of the counts. A share
/// computed in double-precision floating point gives the same text except
/// where the rounding of the division or of the counts themselves, beyond
/// 2^53, moves the share across a half of a hundredth: there this text is
/// the one of the exact share, and a share that lies exactly half-way, as 1
/// in 20000 does at 0.005 %, goes to the even hundredth, here `0.00%`.
pub open spec fn win_chance_text(tickets: nat, total: nat) -> Seq<char> {
    if tickets == 0 || total == 0 {
        seq!['0', '.', '0', '0', '%']
    } else {
        let h = hundredths(tickets, total);
        decimal_text(h / 100) + seq!['.', digit_char(h % 100 / 10), digit_char(h % 10), '%']
    }
}

/// A number of at least a hundred is written as its hundreds, followed by
/// its last two digits.
pub proof fn lemma_decimal_text_split(q: nat, a: nat)
    requires
        q >= 1,
        a < 100,
    ensures
        decimal_text(q * 100 + a) == decimal_text(q).push(digit_char(a / 10)).push(
            digit_char(a % 10),
        ),
{
    let n = q * 100 + a;
    assert(n / 10 == q * 10 + a / 10);
    assert(n % 10 == a % 10);
    let m = n / 10;
    assert(m >= 10);
    assert(m / 10 == q);
    assert(m % 10 == a / 10);
    assert(decimal_text(n) == decimal_text(m).push(digit_char(n % 10)));
    assert(decimal_text(m) == decimal_text(q).push(digit_char(m % 10)));
}

/// The text of one digit.
pub fn digit_str(d: u8) -> (r: &'static str)
    requires
        d < 10,
    ensures
        r@ == seq![digit_char(d as nat)],
{
    proof {
        reveal_strlit("0");
        reveal_strlit("1");
        reveal_strlit("2");
        reveal_strlit("3");
        reveal_strlit("4");
        reveal_strlit("5");
        reveal_strlit("6");
        reveal_strlit("7");
        reveal_strlit("8");
        reveal_strlit("9");
    }
    let r = if d == 0 {
        "0"
    } else if d == 1 {
        "1"
    } else if d == 2 {
        "2"
    } else if d == 3 {
        "3"
    } else if d == 4 {
        "4"
    } else if d == 5 {
        "5"
    } else if d == 6 {
        "6"
    } else if d == 7 {
        "7"
    } else if d == 8 {
        "8"
    } else {
        "9"
    };
    assert(r@ =~= seq![digit_char(d as nat)]);
    r
}

/// Writes `n` in base ten.
pub fn decimal_string(n: u128) -> (r: String)
    ensures
        r@ == decimal_text(n as nat),
    decreases n,
{
    if n < 10 {
        String::from_str(digit_str(n as u8))
    } else {
        let mut r = decimal_string(n / 10);
        r.append(digit_str((n % 10) as u8));
        assert(r@ =~= decimal_text(n as nat));
        r
    }
}

/// One step of a long division: the next digit of `rest / total` and what is
/// left after it.
pub fn next_digit(rest: u128, total: u128) -> (r: (u8, u128))
    requires
        rest < total,
    ensures
        r.0 < 10,
        r.1 < total,
        rest * 10 == r.0 * total + r.1,
{
    let mut digit: u8 = 0;
    let mut left: u128 = 0;
    let mut k: u8 = 0;
    while k < 10
        invariant
            k <= 10,
            digit <= k,
            left < total,
            rest < total,
            k * rest == digit * total + left,
        decreases 10 - k,
    {
        proof {
            assert((k + 1) * rest == k * rest + rest) by (nonlinear_arith);
            assert((digit + 1) * total == digit * total + total) by (nonlinear_arith);
        }
        if left >= total - rest {
            left = left - (total - rest);
            digit = digit + 1;
        } else {
            left = left + rest;
        }
        k = k + 1;
    }
    assert(digit < 10) by (nonlinear_arith)
        requires
            10 * rest == digit * total + left,
            rest < total,
            left >= 0,
    ;
    (digit, left)
}

/// The long division of `tickets * 10000` by `total`, without ever forming
/// the product: the quotient as `whole * 10000 + part`, and the remainder.
fn share_parts(tickets: u128, total: u128) -> (r: (u128, u32, u128))
    requires
        total > 0,
    ensures
        r.1 < 10000,
        r.2 < total,
        tickets * 10000 / (total as int) == r.0 * 10000 + r.1,
        tickets * 10000 % (total as int) == r.2,
        tickets == r.0 * total + (tickets % total),
        r.1 == 9999 ==> tickets % total > 0,
{
    let whole: u128 = tickets / total;
    let rest: u128 = tickets % total;
    let (d1, r1) = next_digit(rest, total);
    let (d2, r2) = next_digit(r1, total);
    let (d3, r3) = next_digit(r2, total);
    let (d4, r4) = next_digit(r3, total);
    let part: u32 = d1 as u32 * 1000 + d2 as u32 * 100 + d3 as u32 * 10 + d4 as u32;
    proof {
        let down = whole as int * 10000 + part as int;
        assert(rest * 10000 == part * total + r4) by (nonlinear_arith)
            requires
                rest * 10 == d1 * total + r1,
                r1 * 10 == d2 * total + r2,
                r2 * 10 == d3 * total + r3,
                r3 * 10 == d4 * total + r4,
                part == d1 * 1000 + d2 * 100 + d3 * 10 + d4,
        ;
        assert(tickets == whole * total + rest) by {
            vstd::arithmetic::div_mod::lemma_fundamental_div_mod(tickets as int, total as int);
            assert(total * whole == whole * total) by (nonlinear_arith);
        }
        assert(tickets * 10000 == down * total + r4) by (nonlinear_arith)
            requires
                tickets == whole * total + rest,
                rest * 10000 == part * total + r4,
                down == whole * 10000 + part,
        ;
        lemma_fundamental_div_mod_converse(
            tickets as int * 10000,
            total as int,
            down,
            r4 as int,
        );
        if part == 9999 {
            assert(rest > 0) by (nonlinear_arith)
                requires
                    rest * 10000 == part * total + r4,
                    part == 9999,
                    total > 0,
                    r4 >= 0,
                    rest >= 0,
            ;
        }
    }
    (whole, part, r4)
}

/// The share of `tickets` in `total` in hundredths of a percent, as
/// `r.0 * 10000 + r.1`.
fn share_hundredths(tickets: u128, total: u128) -> (r: (u128, u32))
    requires
        total > 0,
    ensures
        r.1 < 10000,
        hundredths(tickets as nat, total as nat) == r.0 * 10000 + r.1,
{
    let (whole, part, rest) = share_parts(tickets, total);
    let up: bool = rest > total - rest || (rest == total - rest && part % 2 == 1);
    proof {
        let down = whole as nat * 10000 + part as nat;
        assert((tickets as nat * 10000) / (total as nat) == down);
        assert((tickets as nat * 10000) % (total as nat) == rest);
        assert(down % 2 == part as nat % 2);
    }
    if up {
        if part == 9999 {
            proof {
                assert(whole <= tickets / 2) by (nonlinear_arith)
                    requires
                        tickets == whole * total + (tickets % total),
                        tickets % total > 0,
                        total >= 2,
                        whole >= 0,
                ;
            }
            (whole + 1, 0)
        } else {
            (whole, part + 1)
        }
    } else {
        (whole, part)
    }
}

/// The chance of winning with `user_tickets` out of `total_tickets_sold`,
/// written as a percentage of the exact share, rounded to the nearest
/// hundredth and half-way to the even one.
pub fn calculate_win_chance(user_tickets: u128, total_tickets_sold: u128) -> (r: String)
    ensures
        r@ == win_chance_text(user_tickets as nat, total_tickets_sold as nat),
{
    if total_tickets_sold == 0 || user_tickets == 0 {
        proof {
            reveal_strlit("0.00%");
        }
        let r = String::from_str("0.00%");
        assert(r@ =~= seq!['0', '.', '0', '0', '%']);
        return r;
    }
    let (carried, cents) = share_hundredths(user_tickets, total_tickets_sold);
    let ghost h = hundredths(user_tickets as nat, total_tickets_sold as nat);
    let pair: u32 = cents / 100;
    let frac: u32 = cents % 100;
    proof {
        assert(h / 100 == carried * 100 + pair);
        assert(h % 100 == frac);
        assert(h % 10 == frac % 10);
    }
    let mut r = if carried == 0 {
        decimal_string(pair as u128)
    } else {
        let mut head = decimal_string(carried);
        head.append(digit_str((pair / 10) as u8));
        head.append(digit_str((pair % 10) as u8));
        proof {
            lemma_decimal_text_split(carried as nat, pair as nat);
            assert(head@ =~= decimal_text(h / 100));
        }
        head
    };
    proof {
        reveal_strlit(".");
        reveal_strlit("%");
    }
    r.append(".");
    r.append(digit_str((frac / 10) as u8));
    r.append(digit_str((frac % 10) as u8));
    r.append("%");
    assert(r@ =~= win_chance_text(user_tickets as nat, total_tickets_sold as nat));
    r
}

} // verus!
