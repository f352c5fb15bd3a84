use vstd::prelude::*;

verus! {

/// The views of a sequence of strings.
pub open spec fn views(v: Seq<String>) -> Seq<Seq<char>> {
    v.map_values(|s: String| s@)
}

/// The character of a decimal digit.
pub open spec fn digit_char(d: nat) -> char {
    if d == 0 { '0' }
    else if d == 1 { '1' }
    else if d == 2 { '2' }
    else if d == 3 { '3' }
    else if d == 4 { '4' }
    else if d == 5 { '5' }
    else if d == 6 { '6' }
    else if d == 7 { '7' }
    else if d == 8 { '8' }
    else { '9' }
}

/// The decimal digits of a natural number, most significant first, without leading zeros.
pub open spec fn digits_of(n: nat) -> Seq<char>
    decreases n,
{
    if n < 10 {
        seq![digit_char(n)]
    } else {
        digits_of(n / 10).push(digit_char(n % 10))
    }
}

/// The decimal text of an integer, with a leading `-` when it is negative.
pub open spec fn decimal_of(n: int) -> Seq<char> {
    if n < 0 {
        seq!['-'] + digits_of((-n) as nat)
    } else {
        digits_of(n as nat)
    }
}

fn digit_str(d: u64) -> (r: &'static str)
    requires
        d < 10,
    ensures
        r@ == seq![digit_char(d as nat)],
{
    proof {
        reveal_strlit("0");
        reveal_strlit("1");
        reveal_strlit("2");
        reveal_strlit("3");
        reveal_strlit("4");
        reveal_strlit("5");
        reveal_strlit("6");
        reveal_strlit("7");
        reveal_strlit("8");
        reveal_strlit("9");
    }
    if d == 0 { "0" }
    else if d == 1 { "1" }
    else if d == 2 { "2" }
    else if d == 3 { "3" }
    else if d == 4 { "4" }
    else if d == 5 { "5" }
    else if d == 6 { "6" }
    else if d == 7 { "7" }
    else if d == 8 { "8" }
    else { "9" }
}

fn natural_text(n: u64) -> (r: String)
    ensures
        r@ == digits_of(n as nat),
{
    let mut m: u64 = n;
    let mut s = String::new();
    loop
        invariant_except_break
            digits_of(n as nat) == digits_of(m as nat) + s@,
        ensures
            digits_of(n as nat) == s@,
        decreases m,
    {
        let d = m % 10;
        let mut t = String::from_str(digit_str(d));
        t.append(s.as_str());
        let next = m / 10;
        proof {
            if m >= 10 {
                assert(digits_of(m as nat) == digits_of(next as nat).push(digit_char(d as nat)));
                assert(digits_of(next as nat) + t@ =~= digits_of(m as nat) + s@);
            } else {
                assert(t@ =~= digits_of(m as nat) + s@);
            }
        }
        s = t;
        if next == 0 {
            break;
        }
        m = next;
    }
    s
}

/// Writes an integer in decimal, as `to_string` does for `i64`.
pub fn int_text(n: i64) -> (r: String)
    ensures
        r@ == decimal_of(n as int),
{
    if n < 0 {
        let mag: u64 = (0i128 - n as i128) as u64;
        let digits = natural_text(mag);
        let mut s = String::from_str("-");
        s.append(digits.as_str());
        proof {
            reveal_strlit("-");
        }
        assert(s@ =~= seq!['-'] + digits_of((-n) as nat));
        s
    } else {
        natural_text(n as u64)
    }
}

} // verus!
