//! Verified text rendering: decimal numbers and the combat log lines.
//!
//! The log lines the turn machine emits are built here from verified string
//! concatenation, so their exact contents are part of the machine's contract.

use vstd::prelude::*;
use vstd::string::StringExecFns;

verus! {

/// The decimal digit character for `d` (0 through 9).
pub open spec fn digit_char(d: int) -> char {
    if d == 0 {
        '0'
    } else if d == 1 {
        '1'
    } else if d == 2 {
        '2'
    } else if d == 3 {
        '3'
    } else if d == 4 {
        '4'
    } else if d == 5 {
        '5'
    } else if d == 6 {
        '6'
    } else if d == 7 {
        '7'
    } else if d == 8 {
        '8'
    } else {
        '9'
    }
}

/// The decimal representation of a natural number, most significant digit
/// first, with no leading zeros (a single `'0'` for zero).
pub open spec fn dec_rep(n: nat) -> Seq<char>
    decreases n,
{
    if n < 10 {
        seq![digit_char(n as int)]
    } else {
        dec_rep(n / 10) + seq![digit_char((n % 10) as int)]
    }
}

/// The decimal representation of an integer: a leading `'-'` for negative
/// values, then the digits of the magnitude.
pub open spec fn int_rep(i: int) -> Seq<char> {
    if i < 0 {
        "-"@ + dec_rep((-i) as nat)
    } else {
        dec_rep(i as nat)
    }
}

/// The one-character string for the digit `d`.
fn digit_str(d: u32) -> (r: &'static str)
    requires
        d < 10,
    ensures
        r@ == seq![digit_char(d as int)],
{
    if d == 0 {
        let r = "0";
        proof {
            reveal_strlit("0");
            assert(r@ =~= seq![digit_char(0int)]);
        }
        r
    } else if d == 1 {
        let r = "1";
        proof {
            reveal_strlit("1");
            assert(r@ =~= seq![digit_char(1int)]);
        }
        r
    } else if d == 2 {
        let r = "2";
        proof {
            reveal_strlit("2");
            assert(r@ =~= seq![digit_char(2int)]);
        }
        r
    } else if d == 3 {
        let r = "3";
        proof {
            reveal_strlit("3");
            assert(r@ =~= seq![digit_char(3int)]);
        }
        r
    } else if d == 4 {
        let r = "4";
        proof {
            reveal_strlit("4");
            assert(r@ =~= seq![digit_char(4int)]);
        }
        r
    } else if d == 5 {
        let r = "5";
        proof {
            reveal_strlit("5");
            assert(r@ =~= seq![digit_char(5int)]);
        }
        r
    } else if d == 6 {
        let r = "6";
        proof {
            reveal_strlit("6");
            assert(r@ =~= seq![digit_char(6int)]);
        }
        r
    } else if d == 7 {
        let r = "7";
        proof {
            reveal_strlit("7");
            assert(r@ =~= seq![digit_char(7int)]);
        }
        r
    } else if d == 8 {
        let r = "8";
        proof {
            reveal_strlit("8");
            assert(r@ =~= seq![digit_char(8int)]);
        }
        r
    } else {
        let r = "9";
        proof {
            reveal_strlit("9");
            assert(r@ =~= seq![digit_char(9int)]);
        }
        r
    }
}

/// Appends the decimal digits of `n` to `s`.
fn push_decimal_u32(s: &mut String, n: u32)
    ensures
        final(s)@ == old(s)@ + dec_rep(n as nat),
    decreases n,
{
    if n < 10 {
        s.append(digit_str(n));
    } else {
        proof {
            assert(n / 10 < n) by (nonlinear_arith)
                requires
                    n >= 10,
            ;
        }
        push_decimal_u32(s, n / 10);
        s.append(digit_str(n % 10));
        proof {
            assert((old(s)@ + dec_rep((n / 10) as nat)) + seq![digit_char((n % 10) as int)]
                =~= old(s)@ + dec_rep(n as nat));
        }
    }
}

/// Appends the decimal representation of `n` (sign included) to `s`.
fn push_decimal_i32(s: &mut String, n: i32)
    ensures
        final(s)@ == old(s)@ + int_rep(n as int),
{
    if n < 0 {
        s.append("-");
        let wide: i64 = -(n as i64);
        assert(0 < wide <= u32::MAX as i64);
        let mag: u32 = wide as u32;
        push_decimal_u32(s, mag);
        proof {
            assert((old(s)@ + "-"@) + dec_rep(mag as nat) =~= old(s)@ + int_rep(n as int));
        }
    } else {
        push_decimal_u32(s, n as u32);
    }
}

/// The decimal representation of `n` as a fresh string.
pub fn i32_string(n: i32) -> (r: String)
    ensures
        r@ == int_rep(n as int),
{
    let mut s = String::new();
    push_decimal_i32(&mut s, n);
    proof {
        assert(s@ =~= int_rep(n as int));
    }
    s
}

/// The log line for a plain attack.
pub open spec fn attack_line(attacker: Seq<char>, defender: Seq<char>, damage: int) -> Seq<char> {
    attacker + " attacks "@ + defender + " for "@ + int_rep(damage) + " damage!"@
}

/// Builds [`attack_line`] as a string.
pub fn format_attack_line(attacker: &str, defender: &str, damage: i32) -> (r: String)
    ensures
        r@ == attack_line(attacker@, defender@, damage as int),
{
    let mut s = attacker.to_owned();
    s.append(" attacks ");
    s.append(defender);
    s.append(" for ");
    push_decimal_i32(&mut s, damage);
    s.append(" damage!");
    s
}

/// The log line for an attack made with a named ability.
pub open spec fn uses_on_line(attacker: Seq<char>, ability: Seq<char>, defender: Seq<char>, damage: int) -> Seq<char> {
    attacker + " uses "@ + ability + " on "@ + defender + " for "@ + int_rep(damage) + " damage!"@
}

/// Builds [`uses_on_line`] as a string.
pub fn format_uses_on_line(attacker: &str, ability: &str, defender: &str, damage: i32) -> (r: String)
    ensures
        r@ == uses_on_line(attacker@, ability@, defender@, damage as int),
{
    let mut s = attacker.to_owned();
    s.append(" uses ");
    s.append(ability);
    s.append(" on ");
    s.append(defender);
    s.append(" for ");
    push_decimal_i32(&mut s, damage);
    s.append(" damage!");
    s
}

/// The log line for a self-heal restoring `amount` hit points.
pub open spec fn heal_line(healer: Seq<char>, ability: Seq<char>, amount: int) -> Seq<char> {
    healer + " uses "@ + ability + " and heals "@ + int_rep(amount) + " HP!"@
}

/// Builds [`heal_line`] as a string.
pub fn format_heal_line(healer: &str, ability: &str, amount: i32) -> (r: String)
    ensures
        r@ == heal_line(healer@, ability@, amount as int),
{
    let mut s = healer.to_owned();
    s.append(" uses ");
    s.append(ability);
    s.append(" and heals ");
    push_decimal_i32(&mut s, amount);
    s.append(" HP!");
    s
}

/// The log line reporting a character's hit points.
pub open spec fn hp_line(name: Seq<char>, hp: int, max_hp: int) -> Seq<char> {
    name + " HP: "@ + int_rep(hp) + " / "@ + int_rep(max_hp)
}

/// Builds [`hp_line`] as a string.
pub fn format_hp_line(name: &str, hp: i32, max_hp: i32) -> (r: String)
    ensures
        r@ == hp_line(name@, hp as int, max_hp as int),
{
    let mut s = name.to_owned();
    s.append(" HP: ");
    push_decimal_i32(&mut s, hp);
    s.append(" / ");
    push_decimal_i32(&mut s, max_hp);
    s
}

/// The log line announcing a defeat.
pub open spec fn defeated_line(name: Seq<char>) -> Seq<char> {
    name + " has been defeated!"@
}

/// Builds [`defeated_line`] as a string.
pub fn format_defeated_line(name: &str) -> (r: String)
    ensures
        r@ == defeated_line(name@),
{
    let mut s = name.to_owned();
    s.append(" has been defeated!");
    s
}

/// The log line naming the winner.
pub open spec fn wins_line(winner: Seq<char>) -> Seq<char> {
    winner + " wins!"@
}

/// Builds [`wins_line`] as a string.
pub fn format_wins_line(winner: &str) -> (r: String)
    ensures
        r@ == wins_line(winner@),
{
    let mut s = winner.to_owned();
    s.append(" wins!");
    s
}

} // verus!
