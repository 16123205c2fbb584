//! Rendering of canonical indicator names.
//!
//! Every indicator exposes a display form `NAME(period[, extras])` derived
//! purely from its construction parameters.  The helpers here render counts
//! in decimal and fixed-point numbers with their trailing fraction zeros
//! trimmed, exactly as specified by [`dec_digits`] and [`num_text`].

use vstd::prelude::*;

use vstd::string::StringExecFns;

use crate::num::{abs_v, pow10, Num, SCALE};

verus! {

/// The character of one decimal digit.
pub open spec fn digit_char(d: int) -> char {
    if d == 0 {
        '0'
    } else if d == 1 {
        '1'
    } else if d == 2 {
        '2'
    } else if d == 3 {
        '3'
    } else if d == 4 {
        '4'
    } else if d == 5 {
        '5'
    } else if d == 6 {
        '6'
    } else if d == 7 {
        '7'
    } else if d == 8 {
        '8'
    } else {
        '9'
    }
}

/// The decimal digits of a count, most significant first.
pub open spec fn dec_digits(n: nat) -> Seq<char>
    decreases n,
{
    if n < 10 {
        seq![digit_char(n as int)]
    } else {
        dec_digits(n / 10).push(digit_char(n as int % 10))
    }
}

/// The digits of `n` zero-padded to exactly `k` places, most significant
/// first.
pub open spec fn padded_digits(n: int, k: nat) -> Seq<char>
    decreases k,
{
    if k == 0 {
        Seq::empty()
    } else {
        padded_digits(n / 10, (k - 1) as nat).push(digit_char(n % 10))
    }
}

/// The fractional digits of `f` out of `k` places, with trailing zeros
/// removed.
pub open spec fn trimmed_frac(f: int, k: nat) -> Seq<char>
    decreases k,
{
    if k == 0 {
        Seq::empty()
    } else if f % 10 == 0 {
        trimmed_frac(f / 10, (k - 1) as nat)
    } else {
        padded_digits(f, k)
    }
}

/// The text of a fixed-point value: an optional minus sign, the integer
/// part in decimal, and the fraction (when nonzero) with trailing zeros
/// trimmed.
pub open spec fn num_text(v: int) -> Seq<char> {
    let m = abs_v(v);
    let ip = m / SCALE as int;
    let fp = m % SCALE as int;
    let digits = if fp == 0 {
        dec_digits(ip as nat)
    } else {
        dec_digits(ip as nat) + seq!['.'] + trimmed_frac(fp, 12)
    };
    if v < 0 {
        seq!['-'] + digits
    } else {
        digits
    }
}

/// A name followed by an empty parameter list.
pub open spec fn named0(name: Seq<char>) -> Seq<char> {
    name + seq!['('] + seq![')']
}

/// A name followed by one count parameter.
pub open spec fn named1(name: Seq<char>, p: nat) -> Seq<char> {
    name + seq!['('] + dec_digits(p) + seq![')']
}

/// A name followed by two count parameters.
pub open spec fn named2(name: Seq<char>, p1: nat, p2: nat) -> Seq<char> {
    name + seq!['('] + dec_digits(p1) + seq![',', ' '] + dec_digits(p2) + seq![')']
}

/// A name followed by three count parameters.
pub open spec fn named3(name: Seq<char>, p1: nat, p2: nat, p3: nat) -> Seq<char> {
    name + seq!['('] + dec_digits(p1) + seq![',', ' '] + dec_digits(p2) + seq![',', ' ']
        + dec_digits(p3) + seq![')']
}

/// A name followed by a count and a fixed-point parameter.
pub open spec fn named_num(name: Seq<char>, p: nat, v: int) -> Seq<char> {
    name + seq!['('] + dec_digits(p) + seq![',', ' '] + num_text(v) + seq![')']
}

/// A name followed by two counts and a fixed-point parameter.
pub open spec fn named2_num(name: Seq<char>, p1: nat, p2: nat, v: int) -> Seq<char> {
    name + seq!['('] + dec_digits(p1) + seq![',', ' '] + dec_digits(p2) + seq![',', ' ']
        + num_text(v) + seq![')']
}

/// Append one digit character.
fn push_digit(d: u64, out: &mut String)
    requires
        d < 10,
    ensures
        final(out)@ == old(out)@ + seq![digit_char(d as int)],
{
    proof {
        reveal_strlit("0");
        reveal_strlit("1");
        reveal_strlit("2");
        reveal_strlit("3");
        reveal_strlit("4");
        reveal_strlit("5");
        reveal_strlit("6");
        reveal_strlit("7");
        reveal_strlit("8");
        reveal_strlit("9");
    }
    if d == 0 {
        out.append("0");
    } else if d == 1 {
        out.append("1");
    } else if d == 2 {
        out.append("2");
    } else if d == 3 {
        out.append("3");
    } else if d == 4 {
        out.append("4");
    } else if d == 5 {
        out.append("5");
    } else if d == 6 {
        out.append("6");
    } else if d == 7 {
        out.append("7");
    } else if d == 8 {
        out.append("8");
    } else {
        out.append("9");
    }
}

/// Append the decimal digits of a count.
fn push_count(n: u64, out: &mut String)
    ensures
        final(out)@ == old(out)@ + dec_digits(n as nat),
    decreases n,
{
    if n >= 10 {
        push_count(n / 10, out);
    }
    push_digit(n % 10, out);
}

/// Append the digits of `n` zero-padded to `k` places.
fn push_padded(n: u64, k: u32, out: &mut String)
    ensures
        final(out)@ == old(out)@ + padded_digits(n as int, k as nat),
    decreases k,
{
    if k > 0 {
        push_padded(n / 10, k - 1, out);
        push_digit(n % 10, out);
    }
}

/// Append the text of a fixed-point value.
fn push_num(v: Num, out: &mut String)
    ensures
        final(out)@ == old(out)@ + num_text(v@),
{
    proof {
        use_type_invariant(&v);
        reveal_strlit("-");
        reveal_strlit(".");
    }
    let raw: i128 = v.raw();
    if raw < 0 {
        out.append("-");
    }
    let m: u128 = if raw < 0 {
        (-raw) as u128
    } else {
        raw as u128
    };
    let ip: u64 = (m / (SCALE as u128)) as u64;
    let fp: u64 = (m % (SCALE as u128)) as u64;
    push_count(ip, out);
    if fp != 0 {
        out.append(".");
        // Trim the trailing zeros off the twelve fractional places.
        let mut g: u64 = fp;
        let mut k: u32 = 12;
        proof {
            vstd::arithmetic::div_mod::lemma_fundamental_div_mod(m as int, SCALE as int);
            lemma_pow10_digits();
        }
        while g % 10 == 0
            invariant
                1 <= g,
                1 <= k <= 12,
                g < pow10(k as nat),
                trimmed_frac(fp as int, 12) == trimmed_frac(g as int, k as nat),
            decreases k,
        {
            proof {
                lemma_pow10_unfold(k as nat);
                vstd::arithmetic::div_mod::lemma_fundamental_div_mod(g as int, 10);
                if k == 1 {
                    vstd::arithmetic::div_mod::lemma_small_mod(g as nat, 10);
                }
            }
            g = g / 10;
            k = k - 1;
        }
        push_padded(g, k, out);
    }
}

/// `10^12` bounds the fractional part.
proof fn lemma_pow10_digits()
    ensures
        pow10(12) == SCALE as int,
{
    reveal_with_fuel(pow10, 13);
}

/// Unfold one step of the power.
proof fn lemma_pow10_unfold(e: nat)
    requires
        e >= 1,
    ensures
        pow10(e) == 10 * pow10((e - 1) as nat),
{
}

/// Render `name(p)`.
pub fn format_name1(name: &str, p: usize) -> (r: String)
    ensures
        r@ == named1(name@, p as nat),
{
    proof {
        reveal_strlit("(");
        reveal_strlit(")");
    }
    let mut s = String::new();
    s.append(name);
    s.append("(");
    push_count(p as u64, &mut s);
    s.append(")");
    s
}

/// Render `name(p1, p2)`.
pub fn format_name2(name: &str, p1: usize, p2: usize) -> (r: String)
    ensures
        r@ == named2(name@, p1 as nat, p2 as nat),
{
    proof {
        reveal_strlit("(");
        reveal_strlit(")");
        reveal_strlit(", ");
    }
    let mut s = String::new();
    s.append(name);
    s.append("(");
    push_count(p1 as u64, &mut s);
    s.append(", ");
    push_count(p2 as u64, &mut s);
    s.append(")");
    s
}

/// Render `name(p1, p2, p3)`.
pub fn format_name3(name: &str, p1: usize, p2: usize, p3: usize) -> (r: String)
    ensures
        r@ == named3(name@, p1 as nat, p2 as nat, p3 as nat),
{
    proof {
        reveal_strlit("(");
        reveal_strlit(")");
        reveal_strlit(", ");
    }
    let mut s = String::new();
    s.append(name);
    s.append("(");
    push_count(p1 as u64, &mut s);
    s.append(", ");
    push_count(p2 as u64, &mut s);
    s.append(", ");
    push_count(p3 as u64, &mut s);
    s.append(")");
    s
}

/// Render `name(p, v)` with a fixed-point parameter.
pub fn format_name_num(name: &str, p: usize, v: Num) -> (r: String)
    ensures
        r@ == named_num(name@, p as nat, v@),
{
    proof {
        reveal_strlit("(");
        reveal_strlit(")");
        reveal_strlit(", ");
    }
    let mut s = String::new();
    s.append(name);
    s.append("(");
    push_count(p as u64, &mut s);
    s.append(", ");
    push_num(v, &mut s);
    s.append(")");
    s
}

/// Render `name(p1, p2, v)` with a fixed-point parameter.
pub fn format_name2_num(name: &str, p1: usize, p2: usize, v: Num) -> (r: String)
    ensures
        r@ == named2_num(name@, p1 as nat, p2 as nat, v@),
{
    proof {
        reveal_strlit("(");
        reveal_strlit(")");
        reveal_strlit(", ");
    }
    let mut s = String::new();
    s.append(name);
    s.append("(");
    push_count(p1 as u64, &mut s);
    s.append(", ");
    push_count(p2 as u64, &mut s);
    s.append(", ");
    push_num(v, &mut s);
    s.append(")");
    s
}

/// Render `name()`.
pub fn format_name0(name: &str) -> (r: String)
    ensures
        r@ == named0(name@),
{
    proof {
        reveal_strlit("(");
        reveal_strlit(")");
    }
    let mut s = String::new();
    s.append(name);
    s.append("(");
    s.append(")");
    s
}

/// Render a bare name.
pub fn format_bare(name: &str) -> (r: String)
    ensures
        r@ == name@,
{
    let mut s = String::new();
    s.append(name);
    s
}

} // verus!
