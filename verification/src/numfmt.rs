//! Verified decimal text for command parameters.
//!
//! Command lines carry integer coordinates, feedrates and dwell times in
//! plain decimal ASCII; this module renders them and joins line parts.
use vstd::prelude::*;

verus! {

/// The decimal digit character for a value below ten.
pub open spec fn digit_char(d: nat) -> char {
    if d == 0 {
        '0'
    } else if d == 1 {
        '1'
    } else if d == 2 {
        '2'
    } else if d == 3 {
        '3'
    } else if d == 4 {
        '4'
    } else if d == 5 {
        '5'
    } else if d == 6 {
        '6'
    } else if d == 7 {
        '7'
    } else if d == 8 {
        '8'
    } else {
        '9'
    }
}

/// The usual decimal form of a non-negative integer: no sign, no leading
/// zeros (except for the value zero itself).
pub open spec fn dec_str(n: nat) -> Seq<char>
    decreases n,
{
    if n < 10 {
        seq![digit_char(n)]
    } else {
        dec_str(n / 10) + seq![digit_char(n % 10)]
    }
}

/// The usual decimal form of an integer: a minus sign for negative values.
pub open spec fn int_str(i: int) -> Seq<char> {
    if i < 0 {
        seq!['-'] + dec_str((-i) as nat)
    } else {
        dec_str(i as nat)
    }
}

/// The parts joined by the separator: `join_texts([a, b, c], s) == a + s + b + s + c`.
pub open spec fn join_texts(parts: Seq<Seq<char>>, sep: Seq<char>) -> Seq<char>
    decreases parts.len(),
{
    if parts.len() == 0 {
        Seq::empty()
    } else if parts.len() == 1 {
        parts[0]
    } else {
        join_texts(parts.drop_last(), sep) + sep + parts.last()
    }
}

/// The views of a sequence of strings.
pub open spec fn views_of(parts: Seq<String>) -> Seq<Seq<char>> {
    parts.map_values(|p: String| p@)
}

/// A dwell time in milliseconds as decimal seconds: the whole part, then a
/// fractional part only when it is non-zero, with trailing zeros trimmed.
pub open spec fn pause_str(ms: u32) -> Seq<char> {
    if ms % 1000 == 0 {
        dec_str((ms / 1000) as nat)
    } else {
        dec_str((ms / 1000) as nat) + seq!['.'] + frac_str((ms % 1000) as nat)
    }
}

/// A non-zero millisecond remainder (1..=999) as the fractional digits of a
/// seconds value, trailing zeros trimmed: 300 -> "3", 50 -> "05", 5 -> "005".
pub open spec fn frac_str(f: nat) -> Seq<char> {
    if f % 100 == 0 {
        seq![digit_char(f / 100)]
    } else if f % 10 == 0 {
        seq![digit_char(f / 100), digit_char((f / 10) % 10)]
    } else {
        seq![digit_char(f / 100), digit_char((f / 10) % 10), digit_char(f % 10)]
    }
}

/// The one-character string for a decimal digit.
fn digit_literal(d: u64) -> (s: &'static str)
    requires
        d < 10,
    ensures
        s@ =~= seq![digit_char(d as nat)],
{
    proof {
        reveal_strlit("0");
        reveal_strlit("1");
        reveal_strlit("2");
        reveal_strlit("3");
        reveal_strlit("4");
        reveal_strlit("5");
        reveal_strlit("6");
        reveal_strlit("7");
        reveal_strlit("8");
        reveal_strlit("9");
    }
    match d {
        0 => "0",
        1 => "1",
        2 => "2",
        3 => "3",
        4 => "4",
        5 => "5",
        6 => "6",
        7 => "7",
        8 => "8",
        _ => "9",
    }
}

/// Appends the decimal form of `n` to `s`.
fn push_dec(s: &mut String, n: u64)
    ensures
        final(s)@ == old(s)@ + dec_str(n as nat),
    decreases n,
{
    if n >= 10 {
        assert(n / 10 < n) by (nonlinear_arith)
            requires
                n >= 10,
        ;
        push_dec(s, n / 10);
    }
    let d = digit_literal(n % 10);
    s.append(d);
    proof {
        if n < 10 {
            assert(n % 10 == n);
            assert(old(s)@ + seq![digit_char(n as nat)] =~= old(s)@ + dec_str(n as nat));
        } else {
            assert((old(s)@ + dec_str((n / 10) as nat)) + seq![digit_char((n % 10) as nat)]
                =~= old(s)@ + dec_str(n as nat));
        }
    }
}

/// The decimal form of an unsigned value as a fresh string.
pub fn u64_string(n: u64) -> (r: String)
    ensures
        r@ == dec_str(n as nat),
{
    let mut s = String::new();
    push_dec(&mut s, n);
    proof {
        assert(Seq::<char>::empty() + dec_str(n as nat) =~= dec_str(n as nat));
    }
    s
}

/// The decimal form of a signed value as a fresh string.
pub fn i64_string(n: i64) -> (r: String)
    ensures
        r@ == int_str(n as int),
{
    if n >= 0 {
        let r = u64_string(n as u64);
        r
    } else {
        proof {
            reveal_strlit("-");
        }
        let mut s = String::from_str("-");
        assert(s@ =~= seq!['-']);
        let wide: i128 = -(n as i128);
        assert(0 <= wide <= u64::MAX);
        let mag: u64 = wide as u64;
        push_dec(&mut s, mag);
        assert(seq!['-'] + dec_str(mag as nat) =~= int_str(n as int));
        s
    }
}

/// A dwell time in milliseconds as decimal seconds.
pub fn pause_seconds_string(ms: u32) -> (r: String)
    ensures
        r@ == pause_str(ms),
{
    let whole: u32 = ms / 1000;
    let frac: u32 = ms % 1000;
    let mut s = u64_string(whole as u64);
    if frac == 0 {
        return s;
    }
    proof {
        reveal_strlit(".");
    }
    s.append(".");
    assert(s@ =~= dec_str((ms / 1000) as nat) + seq!['.']);
    let d1 = frac / 100;
    let d2 = (frac / 10) % 10;
    let d3 = frac % 10;
    if frac % 100 == 0 {
        s.append(digit_literal(d1 as u64));
    } else if frac % 10 == 0 {
        s.append(digit_literal(d1 as u64));
        s.append(digit_literal(d2 as u64));
    } else {
        s.append(digit_literal(d1 as u64));
        s.append(digit_literal(d2 as u64));
        s.append(digit_literal(d3 as u64));
    }
    assert(s@ =~= pause_str(ms));
    s
}

/// Joins rendered parts with the separator, in order.
pub fn join_with(parts: &Vec<String>, sep: &str) -> (r: String)
    ensures
        r@ == join_texts(views_of(parts@), sep@),
{
    let mut r = String::new();
    let mut i: usize = 0;
    while i < parts.len()
        invariant
            i <= parts.len(),
            r@ == join_texts(views_of(parts@).take(i as int), sep@),
        decreases parts.len() - i,
    {
        if i > 0 {
            r.append(sep);
        }
        r.append(parts[i].as_str());
        proof {
            let vs = views_of(parts@);
            assert(vs.take(i + 1).drop_last() =~= vs.take(i as int));
            assert(vs.take(i + 1).last() == parts@[i as int]@);
            if i == 0 {
                assert(join_texts(vs.take(1), sep@) == vs.take(1)[0]);
                assert(Seq::<char>::empty() + parts@[0]@ =~= vs.take(1)[0]);
            } else {
                assert(join_texts(vs.take(i + 1), sep@)
                    == join_texts(vs.take(i as int), sep@) + sep@ + parts@[i as int]@);
            }
        }
        i = i + 1;
    }
    proof {
        assert(views_of(parts@).take(parts@.len() as int) =~= views_of(parts@));
    }
    r
}

} // verus!
