//! Base-10 rendering of the timeout value, and the announcement line the
//! emitted methods print when a `timeout` attribute is set.

use vstd::prelude::*;
use vstd::string::StringExecFns;

verus! {

/// The character for one decimal digit.
pub open spec fn digit_char(d: nat) -> char {
    if d == 0 {
        '0'
    } else if d == 1 {
        '1'
    } else if d == 2 {
        '2'
    } else if d == 3 {
        '3'
    } else if d == 4 {
        '4'
    } else if d == 5 {
        '5'
    } else if d == 6 {
        '6'
    } else if d == 7 {
        '7'
    } else if d == 8 {
        '8'
    } else {
        '9'
    }
}

/// The decimal digits of `n`, most significant first, with no leading
/// zeros (`0` itself is the single digit `0`).
pub open spec fn dec_digits(n: nat) -> Seq<char>
    decreases n,
{
    if n < 10 {
        seq![digit_char(n)]
    } else {
        dec_digits(n / 10).push(digit_char(n % 10))
    }
}

/// The digits collected least significant first, read back in reverse.
spec fn digits_rev(v: Seq<u64>) -> Seq<char> {
    v.map_values(|d: u64| digit_char(d as nat)).reverse()
}

/// The one-character string for a decimal digit.
fn digit_str(d: u64) -> (r: &'static str)
    requires
        d < 10,
    ensures
        r@ == seq![digit_char(d as nat)],
{
    let r: &'static str = if d == 0 {
        "0"
    } else if d == 1 {
        "1"
    } else if d == 2 {
        "2"
    } else if d == 3 {
        "3"
    } else if d == 4 {
        "4"
    } else if d == 5 {
        "5"
    } else if d == 6 {
        "6"
    } else if d == 7 {
        "7"
    } else if d == 8 {
        "8"
    } else {
        "9"
    };
    proof {
        reveal_strlit("0");
        reveal_strlit("1");
        reveal_strlit("2");
        reveal_strlit("3");
        reveal_strlit("4");
        reveal_strlit("5");
        reveal_strlit("6");
        reveal_strlit("7");
        reveal_strlit("8");
        reveal_strlit("9");
    }
    assert(r@ =~= seq![digit_char(d as nat)]);
    r
}

/// Renders `n` in base 10.
pub fn u64_to_decimal(n: u64) -> (s: String)
    ensures
        s@ == dec_digits(n as nat),
{
    let mut v: Vec<u64> = Vec::new();
    let mut m: u64 = n;
    loop
        invariant_except_break
            dec_digits(n as nat) =~= dec_digits(m as nat) + digits_rev(v@),
        invariant
            forall|j: int| 0 <= j < v@.len() ==> v@[j] < 10,
        ensures
            dec_digits(n as nat) == digits_rev(v@),
        decreases m,
    {
        let ghost v0 = v@;
        let d: u64 = m % 10;
        v.push(d);
        assert(v@.map_values(|x: u64| digit_char(x as nat)) =~= v0.map_values(
            |x: u64| digit_char(x as nat),
        ).push(digit_char(d as nat)));
        assert(digits_rev(v@) =~= seq![digit_char(d as nat)] + digits_rev(v0));
        if m < 10 {
            assert(dec_digits(m as nat) == seq![digit_char(d as nat)]);
            assert(dec_digits(n as nat) =~= digits_rev(v@));
            break;
        }
        assert(dec_digits(m as nat) == dec_digits((m / 10) as nat).push(digit_char(d as nat)));
        assert(dec_digits(m as nat) + digits_rev(v0) =~= dec_digits((m / 10) as nat) + digits_rev(
            v@,
        ));
        m = m / 10;
    }
    let ghost total = digits_rev(v@);
    let mut s = String::new();
    let mut i: usize = v.len();
    while i > 0
        invariant
            i <= v@.len(),
            forall|j: int| 0 <= j < v@.len() ==> v@[j] < 10,
            total == digits_rev(v@),
            dec_digits(n as nat) == total,
            s@ =~= total.take(v@.len() - i),
        decreases i,
    {
        i = i - 1;
        let ghost k = v@.len() - 1 - i;
        assert(total[k] == digit_char(v@[i as int] as nat)) by {
            assert(total == v@.map_values(|x: u64| digit_char(x as nat)).reverse());
        }
        s.append(digit_str(v[i]));
        assert(s@ =~= total.take(v@.len() - i));
    }
    assert(s@ =~= total);
    s
}

/// The announcement line the emitted methods print when `timeout` is set
/// to `t` milliseconds.
pub open spec fn announcement_text(t: u64) -> Seq<char> {
    "Pipeline timeout set to "@ + dec_digits(t as nat) + " ms"@
}

/// Builds the timeout announcement: the line for `t` milliseconds when a
/// timeout is configured, nothing otherwise.
pub fn timeout_announcement(timeout: &Option<u64>) -> (r: Option<String>)
    ensures
        match *timeout {
            None => r is None,
            Some(t) => r matches Some(s) && s@ == announcement_text(t),
        },
{
    match timeout {
        None => None,
        Some(t) => {
            let mut s: String = String::from_str("Pipeline timeout set to ");
            let num = u64_to_decimal(*t);
            s.append(num.as_str());
            s.append(" ms");
            Some(s)
        },
    }
}

} // verus!
