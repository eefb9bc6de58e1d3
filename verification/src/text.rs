//! Decimal rendering and joining of identifiers, and the few string
//! operations the rest of the engine builds on.

use vstd::prelude::*;
use vstd::string::*;

verus! {

/// The character that stands for the digit `d`, for `0 <= d <= 9`.
pub open spec fn digit_char(d: int) -> char {
    if d == 0 {
        '0'
    } else if d == 1 {
        '1'
    } else if d == 2 {
        '2'
    } else if d == 3 {
        '3'
    } else if d == 4 {
        '4'
    } else if d == 5 {
        '5'
    } else if d == 6 {
        '6'
    } else if d == 7 {
        '7'
    } else if d == 8 {
        '8'
    } else {
        '9'
    }
}

/// The decimal digits of `n`, most significant first, without leading zeros.
pub open spec fn decimal_nat(n: nat) -> Seq<char>
    decreases n,
{
    if n < 10 {
        seq![digit_char(n as int)]
    } else {
        decimal_nat(n / 10) + seq![digit_char((n % 10) as int)]
    }
}

/// The decimal rendering of `n`, with a leading minus sign when it is negative.
pub open spec fn decimal(n: int) -> Seq<char> {
    if n < 0 {
        seq!['-'] + decimal_nat((-n) as nat)
    } else {
        decimal_nat(n as nat)
    }
}

/// The renderings of `items`, in order, with `sep` between neighbours.
pub open spec fn joined(items: Seq<int>, sep: Seq<char>) -> Seq<char>
    decreases items.len(),
{
    if items.len() == 0 {
        Seq::<char>::empty()
    } else if items.len() == 1 {
        decimal(items[0])
    } else {
        joined(items.drop_last(), sep) + sep + decimal(items.last())
    }
}

/// The identifiers of `v` as mathematical integers.
pub open spec fn ints32(v: Seq<i32>) -> Seq<int> {
    v.map_values(|x: i32| x as int)
}

/// The identifiers of `v` as mathematical integers.
pub open spec fn ints64(v: Seq<i64>) -> Seq<int> {
    v.map_values(|x: i64| x as int)
}

fn digit_str(d: u64) -> (s: &'static str)
    requires
        d < 10,
    ensures
        s@ == seq![digit_char(d as int)],
{
    proof {
        reveal_strlit("0");
        reveal_strlit("1");
        reveal_strlit("2");
        reveal_strlit("3");
        reveal_strlit("4");
        reveal_strlit("5");
        reveal_strlit("6");
        reveal_strlit("7");
        reveal_strlit("8");
        reveal_strlit("9");
    }
    let s = if d == 0 {
        "0"
    } else if d == 1 {
        "1"
    } else if d == 2 {
        "2"
    } else if d == 3 {
        "3"
    } else if d == 4 {
        "4"
    } else if d == 5 {
        "5"
    } else if d == 6 {
        "6"
    } else if d == 7 {
        "7"
    } else if d == 8 {
        "8"
    } else {
        "9"
    };
    assert(s@ =~= seq![digit_char(d as int)]);
    s
}

/// Renders a natural number in decimal.
pub fn render_u64(n: u64) -> (s: String)
    ensures
        s@ == decimal_nat(n as nat),
    decreases n,
{
    if n < 10 {
        String::from_str(digit_str(n))
    } else {
        let mut s = render_u64(n / 10);
        s.append(digit_str(n % 10));
        s
    }
}

/// Renders a signed integer in decimal.
pub fn render_i64(n: i64) -> (s: String)
    ensures
        s@ == decimal(n as int),
{
    if n >= 0 {
        render_u64(n as u64)
    } else {
        let below: u64 = (-(n + 1)) as u64;
        let digits = render_u64(below + 1);
        let mut s = String::from_str("-");
        proof {
            reveal_strlit("-");
            assert("-"@ =~= seq!['-']);
        }
        s.append(digits.as_str());
        s
    }
}

/// Renders the identifiers of `items` in order, separated by `sep`.
pub fn join_i64(items: &Vec<i64>, sep: &str) -> (s: String)
    ensures
        s@ == joined(ints64(items@), sep@),
{
    let mut out = String::new();
    let mut i: usize = 0;
    while i < items.len()
        invariant
            i <= items.len(),
            out@ == joined(ints64(items@.take(i as int)), sep@),
        decreases items.len() - i,
    {
        let piece = render_i64(items[i]);
        proof {
            let before = ints64(items@.take(i as int));
            let after = ints64(items@.take(i as int + 1));
            assert(after.drop_last() =~= before);
            assert(after.last() == items@[i as int] as int);
        }
        if i > 0 {
            out.append(sep);
        }
        out.append(piece.as_str());
        proof {
            let after = ints64(items@.take(i as int + 1));
            assert(out@ =~= joined(after, sep@));
        }
        i = i + 1;
    }
    proof {
        assert(items@.take(i as int) =~= items@);
    }
    out
}

/// Renders the identifiers of `items` in order, separated by `sep`.
pub fn join_i32(items: &Vec<i32>, sep: &str) -> (s: String)
    ensures
        s@ == joined(ints32(items@), sep@),
{
    let mut out = String::new();
    let mut i: usize = 0;
    while i < items.len()
        invariant
            i <= items.len(),
            out@ == joined(ints32(items@.take(i as int)), sep@),
        decreases items.len() - i,
    {
        let piece = render_i64(items[i] as i64);
        proof {
            let before = ints32(items@.take(i as int));
            let after = ints32(items@.take(i as int + 1));
            assert(after.drop_last() =~= before);
            assert(after.last() == items@[i as int] as int);
        }
        if i > 0 {
            out.append(sep);
        }
        out.append(piece.as_str());
        proof {
            let after = ints32(items@.take(i as int + 1));
            assert(out@ =~= joined(after, sep@));
        }
        i = i + 1;
    }
    proof {
        assert(items@.take(i as int) =~= items@);
    }
    out
}

/// Whether two strings hold the same characters.
pub fn same_text(a: &str, b: &str) -> (r: bool)
    ensures
        r == (a@ == b@),
{
    let x = String::from_str(a);
    let y = String::from_str(b);
    x == y
}

} // verus!
