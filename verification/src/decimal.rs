//! Decimal text of 32-bit signed integers, as `i32`'s `Display` and `FromStr` handle it.

use vstd::prelude::*;
use vstd::string::*;

verus! {

/// Whether `c` is an ASCII decimal digit.
pub open spec fn is_digit(c: char) -> bool {
    '0' <= c && c <= '9'
}

/// The value of an ASCII digit.
pub open spec fn digit_value(c: char) -> int {
    c as int - '0' as int
}

/// The digit character of a value below ten.
pub open spec fn digit_char(d: int) -> char {
    ('0' as int + d) as char
}

/// Whether every character of `s` is an ASCII digit.
pub open spec fn all_digits(s: Seq<char>) -> bool {
    forall|i: int| 0 <= i < s.len() ==> is_digit(#[trigger] s[i])
}

/// The number that a string of digits denotes, most significant digit first.
pub open spec fn digits_value(s: Seq<char>) -> int
    decreases s.len(),
{
    if s.len() == 0 {
        0
    } else {
        digits_value(s.drop_last()) * 10 + digit_value(s.last())
    }
}

/// The shortest decimal digits of a natural number.
pub open spec fn nat_digits(n: nat) -> Seq<char>
    decreases n,
{
    if n < 10 {
        seq![digit_char(n as int)]
    } else {
        nat_digits(n / 10).push(digit_char((n % 10) as int))
    }
}

/// The decimal text of an integer: a minus sign before the digits of a negative one.
pub open spec fn int_text(x: int) -> Seq<char> {
    if x < 0 {
        seq!['-'] + nat_digits((-x) as nat)
    } else {
        nat_digits(x as nat)
    }
}

/// What parsing `s` as an `i32` gives: an optional `+` or `-`, then one or more
/// ASCII digits whose value fits the type; anything else is refused.
pub open spec fn parse_i32_spec(s: Seq<char>) -> Option<i32> {
    let neg = s.len() > 0 && s[0] == '-';
    let signed = s.len() > 0 && (s[0] == '-' || s[0] == '+');
    let body = if signed { s.skip(1) } else { s };
    if body.len() == 0 || !all_digits(body) {
        None
    } else {
        let v = if neg { -digits_value(body) } else { digits_value(body) };
        if i32::MIN <= v && v <= i32::MAX {
            Some(v as i32)
        } else {
            None
        }
    }
}

fn push_digit(s: &mut String, d: u64)
    requires
        d < 10,
    ensures
        final(s)@ == old(s)@.push(digit_char(d as int)),
{
    let lit: &str = if d == 0 {
        proof { reveal_strlit("0"); }
        "0"
    } else if d == 1 {
        proof { reveal_strlit("1"); }
        "1"
    } else if d == 2 {
        proof { reveal_strlit("2"); }
        "2"
    } else if d == 3 {
        proof { reveal_strlit("3"); }
        "3"
    } else if d == 4 {
        proof { reveal_strlit("4"); }
        "4"
    } else if d == 5 {
        proof { reveal_strlit("5"); }
        "5"
    } else if d == 6 {
        proof { reveal_strlit("6"); }
        "6"
    } else if d == 7 {
        proof { reveal_strlit("7"); }
        "7"
    } else if d == 8 {
        proof { reveal_strlit("8"); }
        "8"
    } else {
        proof { reveal_strlit("9"); }
        "9"
    };
    assert(lit@ =~= seq![digit_char(d as int)]);
    s.append(lit);
}

fn push_nat_digits(s: &mut String, n: u64)
    ensures
        final(s)@ == old(s)@ + nat_digits(n as nat),
    decreases n,
{
    if n >= 10 {
        push_nat_digits(s, n / 10);
        push_digit(s, n % 10);
        assert(nat_digits(n as nat) == nat_digits((n / 10) as nat).push(digit_char((n % 10) as int)));
    } else {
        push_digit(s, n);
    }
}

/// The decimal text of `x`, as `x.to_string()` writes it.
pub fn i32_to_text(x: i32) -> (res: String)
    ensures
        res@ == int_text(x as int),
{
    let mut s = String::new();
    if x < 0 {
        proof { reveal_strlit("-"); }
        s.append("-");
        let m: i64 = -(x as i64);
        push_nat_digits(&mut s, m as u64);
    } else {
        push_nat_digits(&mut s, x as u64);
    }
    s
}


/// A string of digits never denotes a negative number.
pub proof fn lemma_digits_value_nonneg(s: Seq<char>)
    requires
        all_digits(s),
    ensures
        digits_value(s) >= 0,
    decreases s.len(),
{
    if s.len() > 0 {
        lemma_digits_value_nonneg(s.drop_last());
    }
}

/// Parses `s` as an `i32`, as `s.parse::<i32>()` does; `None` where that gives an error.
pub fn parse_i32(s: &String) -> (res: Option<i32>)
    ensures
        res == parse_i32_spec(s@),
{
    let t = s.as_str();
    let len = t.unicode_len();
    let mut start: usize = 0;
    let mut neg = false;
    if len > 0 {
        let c = t.get_char(0);
        if c == '-' {
            neg = true;
            start = 1;
        } else if c == '+' {
            start = 1;
        }
    }
    let ghost body = if start == 1 { s@.skip(1) } else { s@ };
    assert(body =~= s@.subrange(start as int, len as int));
    if start >= len {
        return None;
    }
    let cap: u64 = 2147483649;
    let mut acc: u64 = 0;
    let mut i = start;
    assert(s@.subrange(start as int, start as int) =~= Seq::<char>::empty());
    while i < len
        invariant
            start <= i <= len,
            len == s@.len(),
            body == s@.subrange(start as int, len as int),
            cap == 2147483649,
            start == 1 <==> (s@.len() > 0 && (s@[0] == '-' || s@[0] == '+')),
            start == 0 || start == 1,
            neg <==> (s@.len() > 0 && s@[0] == '-'),
            body == (if start == 1 { s@.skip(1) } else { s@ }),
            t@ == s@,
            all_digits(s@.subrange(start as int, i as int)),
            acc <= cap,
            digits_value(s@.subrange(start as int, i as int)) >= cap ==> acc == cap,
            digits_value(s@.subrange(start as int, i as int)) < cap ==> acc == digits_value(
                s@.subrange(start as int, i as int),
            ),
        decreases len - i,
    {
        let c = t.get_char(i);
        if !('0' <= c && c <= '9') {
            assert(body[i - start] == c);
            return None;
        }
        let ghost pre = s@.subrange(start as int, i as int);
        let ghost next = s@.subrange(start as int, i + 1);
        assert(next.drop_last() =~= pre);
        proof {
            lemma_digits_value_nonneg(pre);
        }
        let d: u64 = (c as u64) - ('0' as u64);
        let v = acc * 10 + d;
        if v > cap {
            acc = cap;
        } else {
            acc = v;
        }
        i = i + 1;
    }
    assert(s@.subrange(start as int, len as int) =~= body);
    proof {
        lemma_digits_value_nonneg(body);
    }
    if neg {
        if acc <= 2147483648 {
            let m: i64 = -(acc as i64);
            Some(m as i32)
        } else {
            None
        }
    } else {
        if acc <= 2147483647 {
            Some(acc as i32)
        } else {
            None
        }
    }
}

proof fn lemma_nat_digits(n: nat)
    ensures
        nat_digits(n).len() > 0,
        all_digits(nat_digits(n)),
        digits_value(nat_digits(n)) == n,
    decreases n,
{
    let d = digit_char((n % 10) as int);
    assert(digit_value(d) == n % 10);
    if n >= 10 {
        lemma_nat_digits(n / 10);
        let p = nat_digits(n / 10);
        assert(nat_digits(n).drop_last() =~= p);
        assert(nat_digits(n).last() == d);
        assert(digits_value(nat_digits(n)) == digits_value(p) * 10 + digit_value(d));
        assert((n / 10) * 10 + n % 10 == n) by (nonlinear_arith);
    } else {
        assert(nat_digits(n).drop_last() =~= Seq::<char>::empty());
        assert(n % 10 == n);
        assert(nat_digits(n).last() == d);
        assert(digits_value(Seq::<char>::empty()) == 0);
        assert(digits_value(nat_digits(n)) == digits_value(Seq::<char>::empty()) * 10 + digit_value(d));
    }
}

/// Reading back the decimal text of an `i32` gives the same number.
pub proof fn lemma_text_round_trip(x: i32)
    ensures
        parse_i32_spec(int_text(x as int)) == Some(x),
{
    let s = int_text(x as int);
    if x < 0 {
        let m = (-x) as nat;
        lemma_nat_digits(m);
        assert(s.skip(1) =~= nat_digits(m));
    } else {
        lemma_nat_digits(x as nat);
        let d = nat_digits(x as nat);
        assert(is_digit(d[0]));
    }
}

} // verus!
