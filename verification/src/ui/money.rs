use vstd::prelude::*;

verus! {

/// The character of the decimal digit `d` (`0 <= d < 10`).
pub open spec fn digit_char(d: int) -> char {
    if d == 0 { '0' }
    else if d == 1 { '1' }
    else if d == 2 { '2' }
    else if d == 3 { '3' }
    else if d == 4 { '4' }
    else if d == 5 { '5' }
    else if d == 6 { '6' }
    else if d == 7 { '7' }
    else if d == 8 { '8' }
    else { '9' }
}

/// Plain decimal digits of `n`, without leading zeros.
pub open spec fn decimal(n: nat) -> Seq<char>
    decreases n,
{
    if n < 10 {
        seq![digit_char(n as int)]
    } else {
        decimal(n / 10).push(digit_char((n % 10) as int))
    }
}

/// A group of exactly three digits, zero-padded (`r < 1000`).
pub open spec fn three_digits(r: nat) -> Seq<char> {
    seq![digit_char((r / 100) as int), digit_char(((r / 10) % 10) as int), digit_char((r % 10) as int)]
}

/// Decimal digits of `n` with a comma between each group of three.
pub open spec fn grouped(n: nat) -> Seq<char>
    decreases n,
{
    if n < 1000 {
        decimal(n)
    } else {
        grouped(n / 1000) + seq![','] + three_digits(n % 1000)
    }
}

/// How a dollar amount reads on screen: `$450,000`, or `-$12,500` below zero.
pub open spec fn money_text(amount: int) -> Seq<char> {
    if amount < 0 {
        seq!['-', '$'] + grouped((-amount) as nat)
    } else {
        seq!['$'] + grouped(amount as nat)
    }
}

fn digit_str(d: u64) -> (s: &'static str)
    requires
        d < 10,
    ensures
        s@ == seq![digit_char(d as int)],
{
    proof {
        reveal_strlit("0");
        reveal_strlit("1");
        reveal_strlit("2");
        reveal_strlit("3");
        reveal_strlit("4");
        reveal_strlit("5");
        reveal_strlit("6");
        reveal_strlit("7");
        reveal_strlit("8");
        reveal_strlit("9");
    }
    match d {
        0 => "0",
        1 => "1",
        2 => "2",
        3 => "3",
        4 => "4",
        5 => "5",
        6 => "6",
        7 => "7",
        8 => "8",
        _ => "9",
    }
}

fn append_decimal(out: &mut String, n: u64)
    ensures
        final(out)@ == old(out)@ + decimal(n as nat),
    decreases n,
{
    if n < 10 {
        out.append(digit_str(n));
    } else {
        append_decimal(out, n / 10);
        out.append(digit_str(n % 10));
    }
}

fn append_grouped(out: &mut String, n: u64)
    ensures
        final(out)@ == old(out)@ + grouped(n as nat),
    decreases n,
{
    if n < 1000 {
        append_decimal(out, n);
    } else {
        append_grouped(out, n / 1000);
        proof {
            reveal_strlit(",");
        }
        out.append(",");
        let r = n % 1000;
        out.append(digit_str(r / 100));
        out.append(digit_str((r / 10) % 10));
        out.append(digit_str(r % 10));
    }
}

/// Formats a dollar amount with a `$` sign and thousands separators.
pub fn format_money(amount: i64) -> (text: String)
    ensures
        text@ == money_text(amount as int),
{
    let mut text = String::new();
    if amount < 0 {
        proof {
            reveal_strlit("-$");
        }
        text.append("-$");
        let magnitude: u64 = (-(amount + 1)) as u64 + 1;
        append_grouped(&mut text, magnitude);
    } else {
        proof {
            reveal_strlit("$");
        }
        text.append("$");
        append_grouped(&mut text, amount as u64);
    }
    text
}

/// Writes a count in plain decimal digits.
pub fn format_count(n: u64) -> (text: String)
    ensures
        text@ == decimal(n as nat),
{
    let mut text = String::new();
    append_decimal(&mut text, n);
    text
}

} // verus!
