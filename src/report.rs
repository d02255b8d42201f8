//! The per-client output row, with amounts written to four decimal places.

use crate::models::Account;
use vstd::prelude::*;
use vstd::string::StringExecFns;

verus! {

/// The character of the decimal digit `d`.
pub open spec fn digit_char(d: int) -> char {
    if d == 0 {
        '0'
    } else if d == 1 {
        '1'
    } else if d == 2 {
        '2'
    } else if d == 3 {
        '3'
    } else if d == 4 {
        '4'
    } else if d == 5 {
        '5'
    } else if d == 6 {
        '6'
    } else if d == 7 {
        '7'
    } else if d == 8 {
        '8'
    } else {
        '9'
    }
}

/// The decimal digits of `n`, without leading zeros.
pub open spec fn digits(n: nat) -> Seq<char>
    decreases n,
{
    if n < 10 {
        seq![digit_char(n as int)]
    } else {
        digits(n / 10) + seq![digit_char((n % 10) as int)]
    }
}

/// The text of an amount of `u` ten-thousandths: an optional minus sign, the
/// whole part, a point and exactly four decimal places (`-12.0500`).
pub open spec fn amount_text(u: int) -> Seq<char> {
    let m: nat = if u < 0 {
        (-u) as nat
    } else {
        u as nat
    };
    let frac: int = (m % 10000) as int;
    let sign: Seq<char> = if u < 0 {
        seq!['-']
    } else {
        Seq::empty()
    };
    sign + digits(m / 10000) + seq!['.'] + seq![
        digit_char(frac / 1000),
        digit_char(frac / 100 % 10),
        digit_char(frac / 10 % 10),
        digit_char(frac % 10),
    ]
}

fn digit_str(d: u128) -> (r: &'static str)
    requires
        d < 10,
    ensures
        r@ == seq![digit_char(d as int)],
{
    proof {
        reveal_strlit("0");
        reveal_strlit("1");
        reveal_strlit("2");
        reveal_strlit("3");
        reveal_strlit("4");
        reveal_strlit("5");
        reveal_strlit("6");
        reveal_strlit("7");
        reveal_strlit("8");
        reveal_strlit("9");
    }
    let r = if d == 0 {
        "0"
    } else if d == 1 {
        "1"
    } else if d == 2 {
        "2"
    } else if d == 3 {
        "3"
    } else if d == 4 {
        "4"
    } else if d == 5 {
        "5"
    } else if d == 6 {
        "6"
    } else if d == 7 {
        "7"
    } else if d == 8 {
        "8"
    } else {
        "9"
    };
    assert(r@ =~= seq![digit_char(d as int)]);
    r
}

fn push_digits(s: &mut String, n: u128)
    ensures
        final(s)@ == old(s)@ + digits(n as nat),
    decreases n,
{
    if n >= 10 {
        push_digits(s, n / 10);
    }
    s.append(digit_str(n % 10));
    assert(final(s)@ =~= old(s)@ + digits(n as nat));
}

/// Writes an amount of `u` ten-thousandths with four decimal places.
pub fn format_amount(u: i128) -> (r: String)
    ensures
        r@ == amount_text(u as int),
{
    let m: u128 = if u < 0 {
        (-(u + 1)) as u128 + 1
    } else {
        u as u128
    };
    let mut s = String::new();
    if u < 0 {
        proof {
            reveal_strlit("-");
        }
        s.append("-");
    }
    push_digits(&mut s, m / 10000);
    proof {
        reveal_strlit(".");
    }
    s.append(".");
    let frac = m % 10000;
    s.append(digit_str(frac / 1000));
    s.append(digit_str(frac / 100 % 10));
    s.append(digit_str(frac / 10 % 10));
    s.append(digit_str(frac % 10));
    assert(s@ =~= amount_text(u as int));
    s
}

/// One row of the final report.
pub struct AccountRow {
    pub client: u16,
    pub available: String,
    pub held: String,
    pub total: String,
    pub locked: bool,
}

impl AccountRow {
    /// The report row of `client`'s account.
    pub fn from_account(client: u16, acc: &Account) -> (r: AccountRow)
        requires
            acc.wf(),
        ensures
            r.client == client,
            r.available@ == amount_text(acc.available as int),
            r.held@ == amount_text(acc.held as int),
            r.total@ == amount_text(acc.spec_total()),
            r.locked == acc.locked,
    {
        AccountRow {
            client,
            available: format_amount(acc.available),
            held: format_amount(acc.held),
            total: format_amount(acc.total()),
            locked: acc.locked,
        }
    }
}

} // verus!
