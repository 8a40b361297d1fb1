//! Character-level text helpers: comparison, prefixes, decimal numbers.
//!
//! Every string is modelled by its view, a `Seq<char>`; the spec functions
//! here say what the text of a number is and which texts denote a number.

use vstd::prelude::*;
use vstd::std_specs::iter::IteratorSpec;

verus! {

/// The decimal digit character for `d`, for `0 <= d < 10`.
pub open spec fn digit(d: int) -> char {
    (('0' as int) + d) as char
}

/// Decimal text of a natural number, without sign or leading zeros.
pub open spec fn decimal(n: nat) -> Seq<char>
    decreases n,
{
    if n < 10 {
        seq![digit(n as int)]
    } else {
        decimal(n / 10).push(digit((n % 10) as int))
    }
}

/// Decimal text of an integer: a minus sign in front of negative numbers.
pub open spec fn signed_decimal(i: int) -> Seq<char> {
    if i < 0 {
        seq!['-'] + decimal((-i) as nat)
    } else {
        decimal(i as nat)
    }
}

/// The text `true` or `false`.
pub open spec fn bool_text(b: bool) -> Seq<char> {
    if b {
        "true"@
    } else {
        "false"@
    }
}

pub open spec fn is_digit(c: char) -> bool {
    '0' <= c <= '9'
}

pub open spec fn digit_value(c: char) -> nat {
    (c as int - '0' as int) as nat
}

pub open spec fn all_digits(s: Seq<char>) -> bool {
    forall|i: int| 0 <= i < s.len() ==> is_digit(#[trigger] s[i])
}

/// The number that a run of decimal digits denotes, most significant first.
pub open spec fn digits_value(s: Seq<char>) -> nat
    decreases s.len(),
{
    if s.len() == 0 {
        0
    } else {
        digits_value(s.drop_last()) * 10 + digit_value(s.last())
    }
}

/// The magnitude that `body` denotes: `body` is one or more decimal digits
/// and their value is at most `max`.
pub open spec fn magnitude(body: Seq<char>, max: nat) -> Option<nat> {
    if body.len() > 0 && all_digits(body) && digits_value(body) <= max {
        Some(digits_value(body))
    } else {
        None
    }
}

/// What `s` denotes as an unsigned 64-bit literal: an optional `+`, then
/// one or more decimal digits, no other character, the value in range.
pub open spec fn unsigned_literal(s: Seq<char>) -> Option<u64> {
    let body = if s.len() > 0 && s[0] == '+' {
        s.skip(1)
    } else {
        s
    };
    match magnitude(body, u64::MAX as nat) {
        Some(v) => Some(v as u64),
        None => None,
    }
}

/// What `s` denotes as a signed 64-bit literal: an optional `+` or `-`,
/// then one or more decimal digits, no other character, the value in range.
pub open spec fn signed_literal(s: Seq<char>) -> Option<i64> {
    if s.len() > 0 && s[0] == '-' {
        match magnitude(s.skip(1), (i64::MAX as nat) + 1) {
            Some(v) => Some((-(v as int)) as i64),
            None => None,
        }
    } else {
        let body = if s.len() > 0 && s[0] == '+' {
            s.skip(1)
        } else {
            s
        };
        match magnitude(body, i64::MAX as nat) {
            Some(v) => Some(v as i64),
            None => None,
        }
    }
}

/// The part of `s` before the first `c`, or all of `s` where it holds no `c`.
pub open spec fn before_first(s: Seq<char>, c: char) -> Seq<char> {
    match s.index_of_first(c) {
        Some(i) => s.take(i),
        None => s,
    }
}

/// A prefix of an all-digit text denotes no more than the whole text.
pub proof fn lemma_digits_value_prefix(s: Seq<char>, k: int)
    requires
        0 <= k <= s.len(),
    ensures
        digits_value(s.take(k)) <= digits_value(s),
    decreases s.len(),
{
    if k == s.len() {
        assert(s.take(k) =~= s);
    } else {
        assert(s.drop_last().take(k) =~= s.take(k));
        lemma_digits_value_prefix(s.drop_last(), k);
    }
}

/// Where `i` is the first position of `c` in `s`, `index_of_first` finds it.
pub proof fn lemma_first_index(s: Seq<char>, c: char, i: int)
    requires
        0 <= i < s.len(),
        s[i] == c,
        forall|j: int| 0 <= j < i ==> s[j] != c,
    ensures
        s.index_of_first(c) == Some(i),
{
    s.index_of_first_ensures(c);
    assert(s.contains(c));
}

/// Where `c` is at no position of `s`, `index_of_first` finds none.
pub proof fn lemma_no_index(s: Seq<char>, c: char)
    requires
        forall|j: int| 0 <= j < s.len() ==> s[j] != c,
    ensures
        s.index_of_first(c) is None,
{
    s.index_of_first_ensures(c);
}

/// The characters of `s`, in order.
pub fn chars_of(s: &str) -> (v: Vec<char>)
    ensures
        v@ == s@,
{
    let mut v: Vec<char> = Vec::new();
    for c in it: s.chars()
        invariant
            it.seq() == s@,
            v@ == s@.take(it.index()),
    {
        v.push(c);
    }
    v
}

/// Whether two texts hold the same characters.
pub fn str_eq(a: &str, b: &str) -> (r: bool)
    ensures
        r == (a@ == b@),
{
    let mut x = a.chars();
    let mut y = b.chars();
    let ghost mut k: int = 0;
    loop
        invariant
            0 <= k <= a@.len(),
            k <= b@.len(),
            x.remaining() == a@.skip(k),
            y.remaining() == b@.skip(k),
            a@.take(k) == b@.take(k),
        decreases a@.len() - k,
    {
        let p = x.next();
        let q = y.next();
        match (p, q) {
            (None, None) => {
                assert(a@ =~= a@.take(k));
                assert(b@ =~= b@.take(k));
                return true;
            },
            (Some(c), Some(d)) => {
                if c != d {
                    return false;
                }
                proof {
                    k = k + 1;
                }
            },
            _ => {
                return false;
            },
        }
    }
}

/// Whether `s` begins with `prefix`.
pub fn starts_with(s: &str, prefix: &str) -> (r: bool)
    ensures
        r == prefix@.is_prefix_of(s@),
{
    let mut x = s.chars();
    let mut y = prefix.chars();
    let ghost mut k: int = 0;
    loop
        invariant
            0 <= k <= prefix@.len(),
            k <= s@.len(),
            x.remaining() == s@.skip(k),
            y.remaining() == prefix@.skip(k),
            s@.take(k) == prefix@.take(k),
        decreases prefix@.len() - k,
    {
        let q = y.next();
        match q {
            None => {
                assert(prefix@ =~= prefix@.take(k));
                assert(s@.subrange(0, k) =~= s@.take(k));
                return true;
            },
            Some(d) => {
                let p = x.next();
                match p {
                    None => {
                        return false;
                    },
                    Some(c) => {
                        if c != d {
                            proof {
                                if prefix@.len() <= s@.len() {
                                    assert(s@.subrange(0, prefix@.len() as int)[k] == s@[k]);
                                }
                            }
                            return false;
                        }
                        proof {
                            k = k + 1;
                        }
                    },
                }
            },
        }
    }
}

fn digit_str(d: u64) -> (s: &'static str)
    requires
        d < 10,
    ensures
        s@ == seq![digit(d as int)],
{
    proof {
        reveal_strlit("0");
        reveal_strlit("1");
        reveal_strlit("2");
        reveal_strlit("3");
        reveal_strlit("4");
        reveal_strlit("5");
        reveal_strlit("6");
        reveal_strlit("7");
        reveal_strlit("8");
        reveal_strlit("9");
    }
    let s = if d == 0 {
        "0"
    } else if d == 1 {
        "1"
    } else if d == 2 {
        "2"
    } else if d == 3 {
        "3"
    } else if d == 4 {
        "4"
    } else if d == 5 {
        "5"
    } else if d == 6 {
        "6"
    } else if d == 7 {
        "7"
    } else if d == 8 {
        "8"
    } else {
        "9"
    };
    assert(s@ =~= seq![digit(d as int)]);
    s
}

/// Appends the decimal text of `n`.
pub fn push_u64(out: &mut String, n: u64)
    ensures
        final(out)@ == old(out)@ + decimal(n as nat),
    decreases n,
{
    if n >= 10 {
        push_u64(out, n / 10);
    }
    out.append(digit_str(n % 10));
    assert(out@ =~= old(out)@ + decimal(n as nat));
}

/// Appends the decimal text of `i`.
pub fn push_i64(out: &mut String, i: i64)
    ensures
        final(out)@ == old(out)@ + signed_decimal(i as int),
{
    if i < 0 {
        proof {
            reveal_strlit("-");
        }
        out.append("-");
        let m: u64 = ((-(i + 1)) as u64) + 1;
        push_u64(out, m);
        assert(out@ =~= old(out)@ + signed_decimal(i as int));
    } else {
        push_u64(out, i as u64);
    }
}

/// Appends `true` or `false`.
pub fn push_bool(out: &mut String, b: bool)
    ensures
        final(out)@ == old(out)@ + bool_text(b),
{
    if b {
        out.append("true");
    } else {
        out.append("false");
    }
}

/// Reads the digits of `chars` from `start` on as a magnitude of at most `max`.
fn read_magnitude(chars: &Vec<char>, start: usize, max: u64) -> (r: Option<u64>)
    requires
        start <= chars.len(),
    ensures
        match magnitude(chars@.skip(start as int), max as nat) {
            Some(v) => r == Some(v as u64),
            None => r is None,
        },
{
    let ghost body = chars@.skip(start as int);
    let n = chars.len();
    if start == n {
        return None;
    }
    let mut acc: u64 = 0;
    let mut i: usize = start;
    while i < n
        invariant
            start <= i <= n,
            n == chars.len(),
            body == chars@.skip(start as int),
            all_digits(body.take(i - start)),
            acc == digits_value(body.take(i - start)),
            acc <= max,
        decreases n - i,
    {
        let c = chars[i];
        assert(body[i - start] == c);
        if !(c >= '0' && c <= '9') {
            return None;
        }
        let d: u64 = (c as u64) - 48;
        proof {
            let next = body.take(i - start + 1);
            assert(next.drop_last() =~= body.take(i - start));
            assert(next.last() == c);
            assert(all_digits(next));
            lemma_digits_value_prefix(body, i - start + 1);
        }
        if d > max || acc > (max - d) / 10 {
            return None;
        }
        acc = acc * 10 + d;
        i = i + 1;
    }
    assert(body.take(i - start) =~= body);
    Some(acc)
}

/// Reads `s` as an unsigned 64-bit literal.
pub fn parse_u64(s: &str) -> (r: Option<u64>)
    ensures
        r == unsigned_literal(s@),
{
    let chars = chars_of(s);
    let start: usize = if chars.len() > 0 && chars[0] == '+' {
        1
    } else {
        0
    };
    assert(chars@.skip(0) =~= chars@);
    read_magnitude(&chars, start, u64::MAX)
}

/// Reads `s` as a signed 64-bit literal.
pub fn parse_i64(s: &str) -> (r: Option<i64>)
    ensures
        r == signed_literal(s@),
{
    let chars = chars_of(s);
    assert(chars@.skip(0) =~= chars@);
    if chars.len() > 0 && chars[0] == '-' {
        match read_magnitude(&chars, 1, 0x8000_0000_0000_0000u64) {
            Some(m) => {
                if m == 0x8000_0000_0000_0000u64 {
                    Some(i64::MIN)
                } else {
                    Some(-(m as i64))
                }
            },
            None => None,
        }
    } else {
        let start: usize = if chars.len() > 0 && chars[0] == '+' {
            1
        } else {
            0
        };
        match read_magnitude(&chars, start, 0x7fff_ffff_ffff_ffffu64) {
            Some(m) => Some(m as i64),
            None => None,
        }
    }
}

/// The position of the first `c` in `chars`, or its length where there is none.
pub fn find_char(chars: &Vec<char>, c: char) -> (i: usize)
    ensures
        i <= chars.len(),
        chars@.index_of_first(c) == (if i < chars.len() {
            Some(i as int)
        } else {
            None
        }),
{
    let n = chars.len();
    let mut i: usize = 0;
    while i < n
        invariant
            i <= n,
            n == chars.len(),
            forall|j: int| 0 <= j < i ==> chars@[j] != c,
        decreases n - i,
    {
        if chars[i] == c {
            proof {
                lemma_first_index(chars@, c, i as int);
            }
            return i;
        }
        i = i + 1;
    }
    proof {
        lemma_no_index(chars@, c);
    }
    n
}

} // verus!
