//! Strings: comparison by characters, and numbers written in decimal.

use vstd::prelude::*;

verus! {

/// Whether `a` and `b` hold the same characters.
pub fn str_equal(a: &str, b: &str) -> (r: bool)
    ensures
        r == (a@ == b@),
{
    let n: usize = a.unicode_len();
    if b.unicode_len() != n {
        return false;
    }
    let mut i: usize = 0;
    while i < n
        invariant
            i <= n,
            n == a@.len(),
            n == b@.len(),
            forall|j: int| 0 <= j < i ==> a@[j] == b@[j],
        decreases n - i,
    {
        if a.get_char(i) != b.get_char(i) {
            return false;
        }
        i += 1;
    }
    assert(a@ =~= b@);
    true
}

/// The character of a decimal digit.
pub open spec fn digit_char(d: int) -> char {
    if d == 0 {
        '0'
    } else if d == 1 {
        '1'
    } else if d == 2 {
        '2'
    } else if d == 3 {
        '3'
    } else if d == 4 {
        '4'
    } else if d == 5 {
        '5'
    } else if d == 6 {
        '6'
    } else if d == 7 {
        '7'
    } else if d == 8 {
        '8'
    } else {
        '9'
    }
}

/// A number in decimal, without leading zeros.
pub open spec fn decimal(n: nat) -> Seq<char>
    decreases n,
{
    if n < 10 {
        seq![digit_char(n as int)]
    } else {
        decimal(n / 10).push(digit_char((n % 10) as int))
    }
}

/// The digits behind the point of `f` ten-thousandths, for `f` from 1 to
/// 9999, without zeros at the end: `2500` has `25`.
pub open spec fn fraction_digits(f: int) -> Seq<char> {
    if f % 10 != 0 {
        seq![
            digit_char(f / 1000 % 10),
            digit_char(f / 100 % 10),
            digit_char(f / 10 % 10),
            digit_char(f % 10),
        ]
    } else if f / 10 % 10 != 0 {
        seq![digit_char(f / 1000 % 10), digit_char(f / 100 % 10), digit_char(f / 10 % 10)]
    } else if f / 100 % 10 != 0 {
        seq![digit_char(f / 1000 % 10), digit_char(f / 100 % 10)]
    } else {
        seq![digit_char(f / 1000 % 10)]
    }
}

/// A number of ten-thousandths in the shortest decimal form: no zeros at
/// the end, and no point for a whole number. `-12345` is `-1.2345`, `2500` is
/// `0.25`, `10000` is `1`.
pub open spec fn shortest_decimal(v: int) -> Seq<char> {
    let a = if v < 0 {
        -v
    } else {
        v
    };
    let sign = if v < 0 {
        seq!['-']
    } else {
        Seq::<char>::empty()
    };
    let fraction = if a % 10000 == 0 {
        Seq::<char>::empty()
    } else {
        seq!['.'] + fraction_digits(a % 10000)
    };
    sign + decimal((a / 10000) as nat) + fraction
}

/// A decimal digit as a string.
pub fn digit_str(d: u8) -> (s: &'static str)
    requires
        d < 10,
    ensures
        s@ == seq![digit_char(d as int)],
{
    proof {
        reveal_strlit("0");
        reveal_strlit("1");
        reveal_strlit("2");
        reveal_strlit("3");
        reveal_strlit("4");
        reveal_strlit("5");
        reveal_strlit("6");
        reveal_strlit("7");
        reveal_strlit("8");
        reveal_strlit("9");
    }
    let s = if d == 0 {
        "0"
    } else if d == 1 {
        "1"
    } else if d == 2 {
        "2"
    } else if d == 3 {
        "3"
    } else if d == 4 {
        "4"
    } else if d == 5 {
        "5"
    } else if d == 6 {
        "6"
    } else if d == 7 {
        "7"
    } else if d == 8 {
        "8"
    } else {
        "9"
    };
    assert(s@ =~= seq![digit_char(d as int)]);
    s
}

/// Writes a number in decimal.
pub fn decimal_text(n: u64) -> (s: String)
    ensures
        s@ == decimal(n as nat),
    decreases n,
{
    if n < 10 {
        String::from_str(digit_str(n as u8))
    } else {
        let mut s = decimal_text(n / 10);
        s.append(digit_str((n % 10) as u8));
        s
    }
}

/// Writes the digits behind the point of `f` ten-thousandths, without zeros
/// at the end.
fn fraction_text(f: u64) -> (s: String)
    requires
        0 < f < 10000,
    ensures
        s@ == fraction_digits(f as int),
{
    let d1: u8 = (f / 1000 % 10) as u8;
    let d2: u8 = (f / 100 % 10) as u8;
    let d3: u8 = (f / 10 % 10) as u8;
    let d4: u8 = (f % 10) as u8;
    let mut s = String::from_str(digit_str(d1));
    if d4 != 0 {
        s.append(digit_str(d2));
        s.append(digit_str(d3));
        s.append(digit_str(d4));
    } else if d3 != 0 {
        s.append(digit_str(d2));
        s.append(digit_str(d3));
    } else if d2 != 0 {
        s.append(digit_str(d2));
    }
    assert(s@ =~= fraction_digits(f as int));
    s
}

/// Writes a number of ten-thousandths in the shortest decimal form.
pub fn shortest_decimal_text(v: i64) -> (s: String)
    ensures
        s@ == shortest_decimal(v as int),
{
    proof {
        reveal_strlit("-");
        reveal_strlit("");
        reveal_strlit(".");
    }
    let a: u64 = if v < 0 {
        (-(v as i128)) as u64
    } else {
        v as u64
    };
    let mut s = String::from_str(
        if v < 0 {
            "-"
        } else {
            ""
        },
    );
    assert(s@ =~= if v < 0 {
        seq!['-']
    } else {
        Seq::<char>::empty()
    });
    let whole = decimal_text(a / 10000);
    s.append(whole.as_str());
    let f: u64 = a % 10000;
    if f != 0 {
        let ghost before = s@;
        s.append(".");
        s.append(fraction_text(f).as_str());
        assert(s@ =~= before + (seq!['.'] + fraction_digits(f as int)));
    } else {
        assert(s@ + Seq::<char>::empty() =~= s@);
    }
    s
}

/// `s` with every occurrence of `from` replaced by `to`: occurrences are
/// taken from the left and do not overlap. The empty text occurs before
/// every character and at the end.
pub open spec fn replaced(s: Seq<char>, from: Seq<char>, to: Seq<char>) -> Seq<char>
    decreases s.len(),
{
    if from.len() == 0 {
        if s.len() == 0 {
            to
        } else {
            to + seq![s[0]] + replaced(s.subrange(1, s.len() as int), from, to)
        }
    } else if s.len() < from.len() {
        s
    } else if s.subrange(0, from.len() as int) == from {
        to + replaced(s.subrange(from.len() as int, s.len() as int), from, to)
    } else {
        seq![s[0]] + replaced(s.subrange(1, s.len() as int), from, to)
    }
}

/// Whether `from` stands in `s` at the place `i`.
fn stands_at(s: &str, i: usize, from: &str) -> (r: bool)
    requires
        i + from@.len() <= s@.len(),
        s@.len() <= usize::MAX,
    ensures
        r == (s@.subrange(i as int, i + from@.len()) == from@),
{
    let m: usize = from.unicode_len();
    let mut k: usize = 0;
    while k < m
        invariant
            k <= m,
            m == from@.len(),
            i + m <= s@.len(),
            s@.len() <= usize::MAX,
            forall|j: int| 0 <= j < k ==> s@[i + j] == from@[j],
        decreases m - k,
    {
        if s.get_char(i + k) != from.get_char(k) {
            assert(s@.subrange(i as int, i + m)[k as int] != from@[k as int]);
            return false;
        }
        k += 1;
    }
    assert(s@.subrange(i as int, i + m) =~= from@);
    true
}

/// Puts `to` before every character of `s` and at its end.
fn put_between(s: &str, to: &str) -> (r: String)
    ensures
        r@ == replaced(s@, Seq::<char>::empty(), to@),
{
    let n: usize = s.unicode_len();
    let ghost none = Seq::<char>::empty();
    let mut out = String::new();
    let mut i: usize = 0;
    assert(s@.subrange(0, n as int) =~= s@);
    while i < n
        invariant
            i <= n,
            n == s@.len(),
            none.len() == 0,
            out@ + replaced(s@.subrange(i as int, n as int), none, to@) == replaced(
                s@,
                none,
                to@,
            ),
        decreases n - i,
    {
        let ghost rest = s@.subrange(i as int, n as int);
        let ghost tail = replaced(s@.subrange(i + 1, n as int), none, to@);
        assert(rest.subrange(1, rest.len() as int) =~= s@.subrange(i + 1, n as int));
        let one = s.substring_char(i, i + 1);
        assert(one@ =~= seq![rest[0]]);
        let ghost before = out@;
        out.append(to);
        out.append(one);
        assert(((before + to@) + one@) + tail =~= before + (to@ + seq![rest[0]] + tail));
        i += 1;
    }
    assert(s@.subrange(n as int, n as int) =~= none);
    out.append(to);
    out
}

/// Replaces every occurrence of `from` in `s` by `to`. Occurrences are
/// taken from the left and do not overlap; the empty text occurs before every
/// character and at the end.
pub fn replace_all(s: &str, from: &str, to: &str) -> (r: String)
    ensures
        r@ == replaced(s@, from@, to@),
{
    if from.unicode_len() == 0 {
        assert(from@ =~= Seq::<char>::empty());
        return put_between(s, to);
    }
    let n: usize = s.unicode_len();
    let m: usize = from.unicode_len();
    let mut out = String::new();
    let mut i: usize = 0;
    assert(s@.subrange(0, n as int) =~= s@);
    while i < n
        invariant
            i <= n,
            n == s@.len(),
            m == from@.len(),
            m > 0,
            out@ + replaced(s@.subrange(i as int, n as int), from@, to@) == replaced(
                s@,
                from@,
                to@,
            ),
        decreases n - i,
    {
        let ghost rest = s@.subrange(i as int, n as int);
        if n - i >= m && stands_at(s, i, from) {
            assert(rest.subrange(0, m as int) =~= s@.subrange(i as int, i + m));
            assert(rest.subrange(m as int, rest.len() as int) =~= s@.subrange(i + m, n as int));
            let ghost before = out@;
            out.append(to);
            assert((before + to@) + replaced(s@.subrange(i + m, n as int), from@, to@) =~= before
                + (to@ + replaced(s@.subrange(i + m, n as int), from@, to@)));
            i += m;
        } else {
            if n - i >= m {
                assert(rest.subrange(0, m as int) =~= s@.subrange(i as int, i + m));
            }
            assert(rest.subrange(1, rest.len() as int) =~= s@.subrange(i + 1, n as int));
            let one = s.substring_char(i, i + 1);
            assert(one@ =~= seq![rest[0]]);
            let ghost before = out@;
            out.append(one);
            if n - i >= m {
                assert((before + one@) + replaced(s@.subrange(i + 1, n as int), from@, to@)
                    =~= before + (seq![rest[0]] + replaced(
                    s@.subrange(i + 1, n as int),
                    from@,
                    to@,
                )));
            } else {
                // what is left is shorter than `from`, and so is what follows it
                assert(replaced(rest, from@, to@) == rest);
                assert(replaced(s@.subrange(i + 1, n as int), from@, to@) == s@.subrange(
                    i + 1,
                    n as int,
                ));
                assert((before + one@) + s@.subrange(i + 1, n as int) =~= before + rest);
            }
            i += 1;
        }
    }
    assert(s@.subrange(n as int, n as int) =~= Seq::<char>::empty());
    assert(out@ + Seq::<char>::empty() =~= out@);
    out
}

} // verus!
