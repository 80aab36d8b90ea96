//! Verified helpers for working with strings as sequences of characters:
//! equality, lexicographic comparison by code point, and rendering of
//! integers in decimal.

use vstd::prelude::*;

verus! {

/// Lexicographic (code point) order on character sequences: `x` comes
/// strictly before `y`.  This is the order `str`'s own comparison uses,
/// since UTF-8 byte order agrees with code point order.
pub open spec fn seq_char_less(x: Seq<char>, y: Seq<char>) -> bool
    decreases x.len(),
{
    if y.len() == 0 {
        false
    } else if x.len() == 0 {
        true
    } else if x[0] != y[0] {
        x[0] < y[0]
    } else {
        seq_char_less(x.subrange(1, x.len() as int), y.subrange(1, y.len() as int))
    }
}

/// Character-by-character equality test for two string slices.
pub fn str_equal(a: &str, b: &str) -> (r: bool)
    ensures
        r == (a@ == b@),
{
    let alen = a.unicode_len();
    let blen = b.unicode_len();
    if alen != blen {
        proof {
            assert(a@.len() != b@.len());
        }
        return false;
    }
    let mut i: usize = 0;
    while i < alen
        invariant
            alen == a@.len(),
            alen == b@.len(),
            i <= alen,
            forall|j: int| 0 <= j < i ==> a@[j] == b@[j],
        decreases alen - i,
    {
        if a.get_char(i) != b.get_char(i) {
            return false;
        }
        i = i + 1;
    }
    proof {
        assert(a@ =~= b@);
    }
    true
}

fn str_less_from(a: &str, b: &str, i: usize) -> (r: bool)
    requires
        i <= a@.len(),
        i <= b@.len(),
    ensures
        r == seq_char_less(a@.subrange(i as int, a@.len() as int), b@.subrange(
            i as int,
            b@.len() as int,
        )),
    decreases a@.len() - i,
{
    let alen = a.unicode_len();
    let blen = b.unicode_len();
    if i >= blen {
        false
    } else if i >= alen {
        true
    } else {
        let ca = a.get_char(i);
        let cb = b.get_char(i);
        if ca != cb {
            ca < cb
        } else {
            let r = str_less_from(a, b, i + 1);
            proof {
                assert(a@.subrange(i as int, a@.len() as int).subrange(
                    1,
                    a@.subrange(i as int, a@.len() as int).len() as int,
                ) =~= a@.subrange(i + 1, a@.len() as int));
                assert(b@.subrange(i as int, b@.len() as int).subrange(
                    1,
                    b@.subrange(i as int, b@.len() as int).len() as int,
                ) =~= b@.subrange(i + 1, b@.len() as int));
            }
            r
        }
    }
}

/// Strict lexicographic comparison of two string slices by code point.
pub fn str_less(a: &str, b: &str) -> (r: bool)
    ensures
        r == seq_char_less(a@, b@),
{
    let r = str_less_from(a, b, 0);
    proof {
        assert(a@.subrange(0, a@.len() as int) =~= a@);
        assert(b@.subrange(0, b@.len() as int) =~= b@);
    }
    r
}

/// The decimal digit character for a value in `0 .. 10`.
pub open spec fn digit_char(d: int) -> char {
    (('0' as int) + d) as char
}

/// The decimal rendering of a non-negative integer, most significant
/// digit first.
pub open spec fn nat_digits(n: int) -> Seq<char>
    decreases n,
{
    if n < 10 {
        seq![digit_char(if n < 0 {
            0
        } else {
            n
        })]
    } else {
        nat_digits(n / 10).push(digit_char(n % 10))
    }
}

/// The decimal rendering of an integer, with a leading minus sign when it
/// is negative.
pub open spec fn int_digits(n: int) -> Seq<char> {
    if n < 0 {
        seq!['-'].add(nat_digits(-n))
    } else {
        nat_digits(n)
    }
}

fn digit_str(d: u64) -> (r: &'static str)
    requires
        d < 10,
    ensures
        r@ =~= seq![digit_char(d as int)],
{
    proof {
        reveal_strlit("0");
        reveal_strlit("1");
        reveal_strlit("2");
        reveal_strlit("3");
        reveal_strlit("4");
        reveal_strlit("5");
        reveal_strlit("6");
        reveal_strlit("7");
        reveal_strlit("8");
        reveal_strlit("9");
    }
    match d {
        0 => "0",
        1 => "1",
        2 => "2",
        3 => "3",
        4 => "4",
        5 => "5",
        6 => "6",
        7 => "7",
        8 => "8",
        _ => "9",
    }
}

fn nat_to_string(n: u64) -> (r: String)
    ensures
        r@ == nat_digits(n as int),
    decreases n,
{
    if n < 10 {
        digit_str(n).to_owned()
    } else {
        let mut s = nat_to_string(n / 10);
        s.append(digit_str(n % 10));
        proof {
            assert(s@ =~= nat_digits(n as int));
        }
        s
    }
}

/// Renders an integer in decimal, as `i32::to_string` does.
pub fn int_to_string(n: i32) -> (r: String)
    ensures
        r@ == int_digits(n as int),
{
    if n < 0 {
        let m = -(n as i64);
        let mut s = "-".to_owned();
        proof {
            reveal_strlit("-");
        }
        s.append(nat_to_string(m as u64).as_str());
        proof {
            assert(s@ =~= int_digits(n as int));
        }
        s
    } else {
        nat_to_string(n as u64)
    }
}

} // verus!
