//! Verified text building blocks: decimal rendering of integers, string
//! concatenation, and character search.  URL construction throughout the
//! crate is specified in terms of the spec functions defined here.

use vstd::prelude::*;

verus! {

/// The decimal digit character for `d` (0 through 9).
pub open spec fn digit_char(d: int) -> char {
    if d == 0 {
        '0'
    } else if d == 1 {
        '1'
    } else if d == 2 {
        '2'
    } else if d == 3 {
        '3'
    } else if d == 4 {
        '4'
    } else if d == 5 {
        '5'
    } else if d == 6 {
        '6'
    } else if d == 7 {
        '7'
    } else if d == 8 {
        '8'
    } else {
        '9'
    }
}

/// Decimal representation of a non-negative integer, most significant digit
/// first, with no leading zeros (a single `'0'` for zero).
pub open spec fn dec_nat(n: nat) -> Seq<char>
    decreases n,
{
    if n < 10 {
        seq![digit_char(n as int)]
    } else {
        dec_nat(n / 10) + seq![digit_char((n % 10) as int)]
    }
}

/// Decimal representation of an integer: a leading `'-'` for negative values.
pub open spec fn dec_int(n: int) -> Seq<char> {
    if n < 0 {
        seq!['-'] + dec_nat((-n) as nat)
    } else {
        dec_nat(n as nat)
    }
}

/// The canonical rendering of a boolean.
pub open spec fn bool_chars(b: bool) -> Seq<char> {
    if b {
        "true"@
    } else {
        "false"@
    }
}

fn digit_str(d: u64) -> (r: &'static str)
    requires
        d < 10,
    ensures
        r@ == seq![digit_char(d as int)],
{
    let r: &'static str = match d {
        0 => "0",
        1 => "1",
        2 => "2",
        3 => "3",
        4 => "4",
        5 => "5",
        6 => "6",
        7 => "7",
        8 => "8",
        _ => "9",
    };
    proof {
        reveal_strlit("0");
        reveal_strlit("1");
        reveal_strlit("2");
        reveal_strlit("3");
        reveal_strlit("4");
        reveal_strlit("5");
        reveal_strlit("6");
        reveal_strlit("7");
        reveal_strlit("8");
        reveal_strlit("9");
        assert(r@ =~= seq![digit_char(d as int)]);
    }
    r
}

/// Renders `n` in decimal.
pub fn u64_to_string(n: u64) -> (r: String)
    ensures
        r@ == dec_nat(n as nat),
    decreases n,
{
    if n < 10 {
        digit_str(n).to_owned()
    } else {
        let mut s = u64_to_string(n / 10);
        s.append(digit_str(n % 10));
        s
    }
}

/// Renders `n` in decimal, with a leading minus sign when negative.
pub fn i64_to_string(n: i64) -> (r: String)
    ensures
        r@ == dec_int(n as int),
{
    if n >= 0 {
        u64_to_string(n as u64)
    } else {
        let magnitude: u64 = if n == i64::MIN {
            9223372036854775808u64
        } else {
            (-n) as u64
        };
        let mut s = "-".to_owned();
        proof {
            reveal_strlit("-");
            assert("-"@ =~= seq!['-']);
        }
        s.append(u64_to_string(magnitude).as_str());
        s
    }
}

/// Renders a boolean as `"true"` or `"false"`.
pub fn bool_to_string(b: bool) -> (r: String)
    ensures
        r@ == bool_chars(b),
{
    if b {
        "true".to_owned()
    } else {
        "false".to_owned()
    }
}

/// Whether `s` holds the character `c`.
pub fn contains_char(s: &str, c: char) -> (r: bool)
    ensures
        r == s@.contains(c),
{
    let n = s.unicode_len();
    let mut i: usize = 0;
    while i < n
        invariant
            n == s@.len(),
            i <= n,
            forall|k: int| 0 <= k < i ==> s@[k] != c,
        decreases n - i,
    {
        if s.get_char(i) == c {
            proof {
                assert(s@[i as int] == c);
            }
            return true;
        }
        i += 1;
    }
    false
}

/// The concatenation of two strings.
pub fn cat2(a: &str, b: &str) -> (r: String)
    ensures
        r@ == a@ + b@,
{
    let mut s = a.to_owned();
    s.append(b);
    s
}

/// The concatenation of three strings.
pub fn cat3(a: &str, b: &str, c: &str) -> (r: String)
    ensures
        r@ == a@ + b@ + c@,
{
    let mut s = a.to_owned();
    s.append(b);
    s.append(c);
    s
}

/// The concatenation of four strings.
pub fn cat4(a: &str, b: &str, c: &str, d: &str) -> (r: String)
    ensures
        r@ == a@ + b@ + c@ + d@,
{
    let mut s = a.to_owned();
    s.append(b);
    s.append(c);
    s.append(d);
    s
}

/// The comma-separated decimal rendering of a sequence of integers.
pub open spec fn dec_join(ids: Seq<int>) -> Seq<char>
    decreases ids.len(),
{
    if ids.len() == 0 {
        Seq::empty()
    } else if ids.len() == 1 {
        dec_int(ids[0])
    } else {
        dec_join(ids.drop_last()) + ","@ + dec_int(ids.last())
    }
}

/// Renders the ids in decimal, separated by commas.
pub fn comma_join_u64(ids: &Vec<u64>) -> (r: String)
    ensures
        r@ == dec_join(ids@.map_values(|x: u64| x as int)),
{
    let ghost mapped = ids@.map_values(|x: u64| x as int);
    let mut s = String::new();
    let mut i: usize = 0;
    while i < ids.len()
        invariant
            i <= ids.len(),
            mapped == ids@.map_values(|x: u64| x as int),
            s@ == dec_join(mapped.subrange(0, i as int)),
        decreases ids.len() - i,
    {
        if i > 0 {
            s.append(",");
        }
        s.append(u64_to_string(ids[i]).as_str());
        proof {
            let pre = mapped.subrange(0, i as int);
            let cur = mapped.subrange(0, i as int + 1);
            assert(cur.drop_last() =~= pre);
            assert(cur.last() == ids@[i as int] as int);
            assert(s@ =~= dec_join(cur));
        }
        i += 1;
    }
    proof {
        assert(mapped.subrange(0, ids@.len() as int) =~= mapped);
    }
    s
}

/// Renders the ids in decimal, separated by commas.
pub fn comma_join_i64(ids: &Vec<i64>) -> (r: String)
    ensures
        r@ == dec_join(ids@.map_values(|x: i64| x as int)),
{
    let ghost mapped = ids@.map_values(|x: i64| x as int);
    let mut s = String::new();
    let mut i: usize = 0;
    while i < ids.len()
        invariant
            i <= ids.len(),
            mapped == ids@.map_values(|x: i64| x as int),
            s@ == dec_join(mapped.subrange(0, i as int)),
        decreases ids.len() - i,
    {
        if i > 0 {
            s.append(",");
        }
        s.append(i64_to_string(ids[i]).as_str());
        proof {
            let pre = mapped.subrange(0, i as int);
            let cur = mapped.subrange(0, i as int + 1);
            assert(cur.drop_last() =~= pre);
            assert(cur.last() == ids@[i as int] as int);
            assert(s@ =~= dec_join(cur));
        }
        i += 1;
    }
    proof {
        assert(mapped.subrange(0, ids@.len() as int) =~= mapped);
    }
    s
}

} // verus!
