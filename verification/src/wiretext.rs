//! Rendering of wire text forms: identifier lists joined by `;` and the
//! stable decimal text of integers.

use vstd::prelude::*;

verus! {

/// The wire text of a list of identifiers: the elements in input order,
/// separated by a single `;`, with no separator for a single element.
pub open spec fn spec_join_semi(elts: Seq<Seq<char>>) -> Seq<char>
    decreases elts.len(),
{
    if elts.len() == 0 {
        Seq::empty()
    } else if elts.len() == 1 {
        elts[0]
    } else {
        spec_join_semi(elts.drop_last()) + seq![';'] + elts.last()
    }
}

/// Joins identifiers with `;`, preserving input order, no deduplication.
pub fn join_semi(elts: &Vec<String>) -> (r: String)
    ensures
        r@ == spec_join_semi(elts@.map_values(|s: String| s@)),
{
    let ghost views = elts@.map_values(|s: String| s@);
    let mut r = String::new();
    let mut i: usize = 0;
    while i < elts.len()
        invariant
            i <= elts.len(),
            views == elts@.map_values(|s: String| s@),
            r@ == spec_join_semi(views.take(i as int)),
        decreases elts.len() - i,
    {
        if i > 0 {
            r.append(";");
        }
        r.append(elts[i].as_str());
        proof {
            reveal_strlit(";");
            let taken = views.take(i as int + 1);
            assert(taken.drop_last() =~= views.take(i as int));
            assert(taken.last() == views[i as int]);
            assert(r@ =~= spec_join_semi(taken));
        }
        i = i + 1;
    }
    proof {
        assert(views.take(elts@.len() as int) =~= views);
    }
    r
}

pub open spec fn spec_digit_char(d: int) -> char {
    if d == 0 {
        '0'
    } else if d == 1 {
        '1'
    } else if d == 2 {
        '2'
    } else if d == 3 {
        '3'
    } else if d == 4 {
        '4'
    } else if d == 5 {
        '5'
    } else if d == 6 {
        '6'
    } else if d == 7 {
        '7'
    } else if d == 8 {
        '8'
    } else {
        '9'
    }
}

pub open spec fn spec_char_digit(c: char) -> Option<int> {
    if c == '0' {
        Some(0int)
    } else if c == '1' {
        Some(1int)
    } else if c == '2' {
        Some(2int)
    } else if c == '3' {
        Some(3int)
    } else if c == '4' {
        Some(4int)
    } else if c == '5' {
        Some(5int)
    } else if c == '6' {
        Some(6int)
    } else if c == '7' {
        Some(7int)
    } else if c == '8' {
        Some(8int)
    } else if c == '9' {
        Some(9int)
    } else {
        None
    }
}

/// Reading a digit back is the inverse of writing one.
pub proof fn lemma_digit_char_inverse(d: int)
    requires
        0 <= d < 10,
    ensures
        spec_char_digit(spec_digit_char(d)) == Some(d),
{
}

/// The stable decimal text of a nonnegative integer: no sign, no
/// leading zero except for zero itself, never scientific notation.
pub open spec fn spec_udec(n: int) -> Seq<char>
    decreases n,
{
    if n < 10 {
        seq![spec_digit_char(n)]
    } else {
        spec_udec(n / 10) + seq![spec_digit_char(n % 10)]
    }
}

/// The stable decimal text of a signed integer: a leading `-` for
/// negative values, then the digits.
pub open spec fn spec_idec(n: int) -> Seq<char> {
    if n >= 0 {
        spec_udec(n)
    } else {
        seq!['-'] + spec_udec(-n)
    }
}

pub fn digit_str(d: u32) -> (r: &'static str)
    requires
        d < 10,
    ensures
        r@ == seq![spec_digit_char(d as int)],
{
    proof {
        reveal_strlit("0");
        reveal_strlit("1");
        reveal_strlit("2");
        reveal_strlit("3");
        reveal_strlit("4");
        reveal_strlit("5");
        reveal_strlit("6");
        reveal_strlit("7");
        reveal_strlit("8");
        reveal_strlit("9");
    }
    if d == 0 {
        "0"
    } else if d == 1 {
        "1"
    } else if d == 2 {
        "2"
    } else if d == 3 {
        "3"
    } else if d == 4 {
        "4"
    } else if d == 5 {
        "5"
    } else if d == 6 {
        "6"
    } else if d == 7 {
        "7"
    } else if d == 8 {
        "8"
    } else {
        "9"
    }
}

/// Renders an unsigned integer in its stable decimal text form.
pub fn u32_dec(n: u32) -> (r: String)
    ensures
        r@ == spec_udec(n as int),
    decreases n,
{
    if n < 10 {
        digit_str(n).to_owned()
    } else {
        let mut s = u32_dec(n / 10);
        s.append(digit_str(n % 10));
        s
    }
}

/// Renders a signed integer in its stable decimal text form.
pub fn i32_dec(n: i32) -> (r: String)
    ensures
        r@ == spec_idec(n as int),
{
    if n >= 0 {
        u32_dec(n as u32)
    } else {
        proof {
            reveal_strlit("-");
        }
        let m: u32 = (-(n as i64)) as u32;
        assert(m as int == -(n as int));
        let mut s = String::from_str("-");
        s.append(u32_dec(m).as_str());
        s
    }
}

/// The two-digit, zero-padded text of a value below one hundred.
pub open spec fn spec_two_digits(n: int) -> Seq<char> {
    seq![spec_digit_char(n / 10), spec_digit_char(n % 10)]
}

/// The four-digit, zero-padded text of a value below ten thousand.
pub open spec fn spec_four_digits(n: int) -> Seq<char> {
    spec_two_digits(n / 100) + spec_two_digits(n % 100)
}

pub fn two_digits(n: u32) -> (r: String)
    requires
        n < 100,
    ensures
        r@ == spec_two_digits(n as int),
{
    let mut s = digit_str(n / 10).to_owned();
    s.append(digit_str(n % 10));
    proof {
        assert(s@ =~= spec_two_digits(n as int));
    }
    s
}

pub fn four_digits(n: u32) -> (r: String)
    requires
        n < 10000,
    ensures
        r@ == spec_four_digits(n as int),
{
    let mut s = two_digits(n / 100);
    s.append(two_digits(n % 100).as_str());
    s
}

} // verus!
