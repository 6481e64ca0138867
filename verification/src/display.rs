use vstd::prelude::*;

use crate::time::{lemma_trunc_div_rem, trunc_div, trunc_rem, trunc_rem_i64, TimeDelta};

verus! {

/// The character of a decimal digit.
pub open spec fn digit_char(d: nat) -> char {
    if d == 0 {
        '0'
    } else if d == 1 {
        '1'
    } else if d == 2 {
        '2'
    } else if d == 3 {
        '3'
    } else if d == 4 {
        '4'
    } else if d == 5 {
        '5'
    } else if d == 6 {
        '6'
    } else if d == 7 {
        '7'
    } else if d == 8 {
        '8'
    } else {
        '9'
    }
}

/// The decimal notation of `n`, without leading zeros.
pub open spec fn decimal(n: nat) -> Seq<char>
    decreases n,
{
    if n < 10 {
        seq![digit_char(n)]
    } else {
        decimal(n / 10).push(digit_char(n % 10))
    }
}

/// The decimal notation of `n`, padded with a leading zero to at least two digits
/// (as `{:02}` formats it).
pub open spec fn pad2(n: nat) -> Seq<char> {
    if n < 10 {
        seq!['0', digit_char(n)]
    } else {
        decimal(n)
    }
}

/// The magnitude of an integer.
pub open spec fn abs_int(v: int) -> int {
    if v < 0 {
        -v
    } else {
        v
    }
}

/// The sign of an integer: -1, 0 or 1.
pub open spec fn signum_int(v: int) -> int {
    if v < 0 {
        -1
    } else if v == 0 {
        0
    } else {
        1
    }
}

/// The countdown text for a span of `s` whole seconds: `t`, a sign, then hours,
/// minutes and seconds of the magnitude, each at least two digits. The sign is `-`
/// while the target lies ahead (or now) and `+` once it has passed.
pub open spec fn delta_text(s: int) -> Seq<char> {
    let a = abs_int(s);
    let sign = if s < 0 {
        '+'
    } else {
        '-'
    };
    seq!['t', sign] + pad2((a / 3600) as nat) + seq![':'] + pad2(((a / 60) % 60) as nat) + seq![
        ':',
    ] + pad2((a % 60) as nat)
}

/// Separates the sign and the magnitude of a number.
pub fn sigabs(v: i64) -> (r: (i64, i64))
    requires
        v != i64::MIN,
    ensures
        r.0 == signum_int(v as int),
        r.1 == abs_int(v as int),
        r.0 * r.1 == v,
{
    if v < 0 {
        (-1, -v)
    } else if v == 0 {
        (0, 0)
    } else {
        (1, v)
    }
}

fn digit_str(d: u64) -> (r: &'static str)
    requires
        d < 10,
    ensures
        r@ == seq![digit_char(d as nat)],
{
    proof {
        reveal_strlit("0");
        reveal_strlit("1");
        reveal_strlit("2");
        reveal_strlit("3");
        reveal_strlit("4");
        reveal_strlit("5");
        reveal_strlit("6");
        reveal_strlit("7");
        reveal_strlit("8");
        reveal_strlit("9");
    }
    if d == 0 {
        "0"
    } else if d == 1 {
        "1"
    } else if d == 2 {
        "2"
    } else if d == 3 {
        "3"
    } else if d == 4 {
        "4"
    } else if d == 5 {
        "5"
    } else if d == 6 {
        "6"
    } else if d == 7 {
        "7"
    } else if d == 8 {
        "8"
    } else {
        "9"
    }
}

fn push_decimal(out: &mut String, n: u64)
    ensures
        final(out)@ == old(out)@ + decimal(n as nat),
    decreases n,
{
    if n >= 10 {
        push_decimal(out, n / 10);
    }
    out.append(digit_str(n % 10));
    assert(n >= 10 ==> old(out)@ + decimal(n as nat) =~= old(out)@ + decimal((n / 10) as nat) + seq![
        digit_char((n % 10) as nat),
    ]);
}

fn push_pad2(out: &mut String, n: u64)
    ensures
        final(out)@ == old(out)@ + pad2(n as nat),
{
    if n < 10 {
        proof {
            reveal_strlit("0");
        }
        out.append("0");
    }
    push_decimal(out, n);
    assert(n < 10 ==> old(out)@ + pad2(n as nat) =~= old(out)@ + seq!['0'] + decimal(n as nat));
}

proof fn lemma_trunc_abs(a: int, b: int)
    requires
        b > 0,
    ensures
        abs_int(trunc_div(a, b)) == abs_int(a) / b,
        abs_int(trunc_rem(a, b)) == abs_int(a) % b,
        trunc_rem(a, b) < 0 <==> (a < 0 && abs_int(a) % b != 0),
{
    lemma_trunc_div_rem(a, b);
    if a < 0 {
        let n = -a;
        assert(n == b * (n / b) + n % b) by (nonlinear_arith) requires b > 0;
        assert(n / b >= 0) by (nonlinear_arith) requires b > 0, n >= 0;
        assert(b * (-(n / b)) == -(b * (n / b))) by (nonlinear_arith);
        assert(trunc_rem(a, b) == -(n % b));
    } else {
        assert(a / b >= 0) by (nonlinear_arith) requires b > 0, a >= 0;
        assert(a == b * (a / b) + a % b) by (nonlinear_arith) requires b > 0;
        assert(0 <= a % b) by (nonlinear_arith) requires b > 0;
        assert(trunc_rem(a, b) == a % b);
    }
}

/// Formats a span as a countdown `t[+|-]hh:mm:ss`, from its whole seconds: `t-`
/// while the target lies ahead, `t+` once it has passed.
pub fn format_delta_time(delta: TimeDelta) -> (r: String)
    requires
        delta.wf(),
    ensures
        r@ == delta_text(delta.whole_seconds()),
{
    let diff = delta;
    let hours_signed = diff.num_hours();
    let minutes_signed = diff.num_minutes();
    let seconds_signed = diff.num_seconds();
    let ghost s = delta.whole_seconds();
    proof {
        lemma_trunc_abs(s, 3600);
        lemma_trunc_abs(s, 60);
        lemma_trunc_abs(trunc_div(s, 60), 60);
        lemma_trunc_abs(trunc_rem(s, 60), 60);
        lemma_trunc_div_rem(s, 60);
        lemma_trunc_div_rem(trunc_rem(s, 60), 60);
    }
    let hour: i64 = if hours_signed < 0 { -hours_signed } else { hours_signed };
    let m = trunc_rem_i64(minutes_signed, 60);
    let mins: i64 = if m < 0 { -m } else { m };
    let (_, secs) = sigabs(trunc_rem_i64(trunc_rem_i64(seconds_signed, 60), 60));
    let behind = seconds_signed < 0;
    proof {
        assert(abs_int(trunc_rem(s, 60)) % 60 == abs_int(s) % 60) by (nonlinear_arith)
            requires abs_int(trunc_rem(s, 60)) == abs_int(s) % 60, abs_int(s) >= 0;
        assert(abs_int(trunc_rem(s, 60)) == abs_int(s) % 60);
    }
    let mut out = String::new();
    proof {
        reveal_strlit("t");
        reveal_strlit("+");
        reveal_strlit("-");
        reveal_strlit(":");
    }
    out.append("t");
    out.append(if behind { "+" } else { "-" });
    push_pad2(&mut out, hour as u64);
    out.append(":");
    push_pad2(&mut out, mins as u64);
    out.append(":");
    push_pad2(&mut out, secs as u64);
    assert(out@ =~= delta_text(s));
    out
}

} // verus!
