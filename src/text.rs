//! Character-level helpers over `String` and `str`, each with an exact
//! contract on the character sequence it produces.
use vstd::prelude::*;
use vstd::string::{StrSliceExecFns, StringExecFns};

verus! {

/// The character for a decimal digit `d` (`d < 10`).
pub open spec fn digit_char(d: nat) -> char {
    if d == 0 {
        '0'
    } else if d == 1 {
        '1'
    } else if d == 2 {
        '2'
    } else if d == 3 {
        '3'
    } else if d == 4 {
        '4'
    } else if d == 5 {
        '5'
    } else if d == 6 {
        '6'
    } else if d == 7 {
        '7'
    } else if d == 8 {
        '8'
    } else {
        '9'
    }
}

/// Decimal digits of a natural number, most significant first, no leading zeros.
pub open spec fn decimal_digits(n: nat) -> Seq<char>
    decreases n,
{
    if n < 10 {
        seq![digit_char(n)]
    } else {
        decimal_digits(n / 10) + seq![digit_char(n % 10)]
    }
}

/// Decimal text of an integer: a leading `-` for negative values.
pub open spec fn decimal(n: int) -> Seq<char> {
    if n < 0 {
        seq!['-'] + decimal_digits((-n) as nat)
    } else {
        decimal_digits(n as nat)
    }
}

/// The first `n` characters of `s`, or all of `s` when it is shorter.
pub open spec fn leading(s: Seq<char>, n: nat) -> Seq<char> {
    if s.len() <= n {
        s
    } else {
        s.subrange(0, n as int)
    }
}

/// `parts` with `sep` between each neighbouring pair.
pub open spec fn joined(parts: Seq<Seq<char>>, sep: Seq<char>) -> Seq<char>
    decreases parts.len(),
{
    if parts.len() == 0 {
        Seq::empty()
    } else if parts.len() == 1 {
        parts[0]
    } else {
        joined(parts.drop_last(), sep) + sep + parts.last()
    }
}

/// The character sequences held by a vector of strings.
pub open spec fn texts(v: Seq<String>) -> Seq<Seq<char>> {
    v.map_values(|s: String| s@)
}

fn digit_text(d: u64) -> (r: &'static str)
    requires
        d < 10,
    ensures
        r@ == seq![digit_char(d as nat)],
{
    if d == 0 {
        proof { reveal_strlit("0"); }
        "0"
    } else if d == 1 {
        proof { reveal_strlit("1"); }
        "1"
    } else if d == 2 {
        proof { reveal_strlit("2"); }
        "2"
    } else if d == 3 {
        proof { reveal_strlit("3"); }
        "3"
    } else if d == 4 {
        proof { reveal_strlit("4"); }
        "4"
    } else if d == 5 {
        proof { reveal_strlit("5"); }
        "5"
    } else if d == 6 {
        proof { reveal_strlit("6"); }
        "6"
    } else if d == 7 {
        proof { reveal_strlit("7"); }
        "7"
    } else if d == 8 {
        proof { reveal_strlit("8"); }
        "8"
    } else {
        proof { reveal_strlit("9"); }
        "9"
    }
}

/// Decimal text of an unsigned number.
pub fn digits_text(n: u64) -> (r: String)
    ensures
        r@ == decimal_digits(n as nat),
{
    let mut rest: u64 = n;
    let mut acc = String::new();
    while rest >= 10
        invariant
            decimal_digits(n as nat) == decimal_digits(rest as nat) + acc@,
        decreases rest,
    {
        let d: u64 = rest % 10;
        let ghost old_acc = acc@;
        let ghost old_rest = rest;
        acc = digit_text(d).to_owned().concat(acc.as_str());
        rest = rest / 10;
        assert(decimal_digits(old_rest as nat) == decimal_digits(rest as nat) + seq![
            digit_char(d as nat),
        ]);
        assert(decimal_digits(rest as nat) + seq![digit_char(d as nat)] + old_acc
            =~= decimal_digits(rest as nat) + acc@);
    }
    let r = digit_text(rest).to_owned().concat(acc.as_str());
    r
}

/// Decimal text of a signed number, as `i64`'s `Display` writes it.
pub fn decimal_text(n: i64) -> (r: String)
    ensures
        r@ == decimal(n as int),
{
    if n < 0 {
        let magnitude: u64 = (-(n + 1)) as u64 + 1;
        let digits = digits_text(magnitude);
        proof { reveal_strlit("-"); }
        "-".to_owned().concat(digits.as_str())
    } else {
        digits_text(n as u64)
    }
}

/// The first `n` characters of `s`, or all of it when it is shorter.
pub fn leading_text(s: &str, n: usize) -> (r: String)
    ensures
        r@ == leading(s@, n as nat),
{
    let len = s.unicode_len();
    if len <= n {
        s.to_owned()
    } else {
        s.substring_char(0, n).to_owned()
    }
}

/// Joins `parts` with `sep` between neighbours, as `[String]::join` does.
pub fn join_texts(parts: &Vec<String>, sep: &str) -> (r: String)
    ensures
        r@ == joined(texts(parts@), sep@),
{
    let ghost views = texts(parts@);
    let mut acc = String::new();
    let mut i: usize = 0;
    while i < parts.len()
        invariant
            i <= parts.len(),
            views == texts(parts@),
            acc@ == joined(views.take(i as int), sep@),
        decreases parts.len() - i,
    {
        assert(views.take(i + 1).drop_last() =~= views.take(i as int));
        if i == 0 {
            acc = parts[i].clone();
        } else {
            acc = acc.concat(sep).concat(parts[i].as_str());
        }
        i = i + 1;
    }
    assert(views.take(parts.len() as int) =~= views);
    acc
}

} // verus!
