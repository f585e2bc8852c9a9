//! Text helpers: comparing, trimming, searching and decimal digits, all over
//! sequences of characters.

use vstd::prelude::*;
use vstd::string::StringExecFns;
use vstd::std_specs::iter::IteratorSpec;

verus! {

/// Whether two string slices hold the same characters.
pub fn same_text(a: &str, b: &str) -> (r: bool)
    ensures
        r == (a@ == b@),
{
    broadcast use vstd::string::group_string_axioms;

    let mut left = a.chars();
    let mut right = b.chars();
    let ghost mut n: int = 0;
    loop
        invariant
            0 <= n <= a@.len(),
            n <= b@.len(),
            left.remaining() == a@.skip(n),
            right.remaining() == b@.skip(n),
            a@.take(n) == b@.take(n),
        decreases a@.len() - n,
    {
        let x = left.next();
        let y = right.next();
        match (x, y) {
            (None, None) => {
                assert(a@.take(n) == a@);
                assert(b@.take(n) == b@);
                return true;
            },
            (Some(p), Some(q)) => {
                if p != q {
                    return false;
                }
                proof {
                    n = n + 1;
                }
            },
            _ => {
                return false;
            },
        }
    }
}

/// The characters of a string slice, in order.
pub fn chars_of(s: &str) -> (v: Vec<char>)
    ensures
        v@ == s@,
{
    broadcast use vstd::string::group_string_axioms;

    let mut v: Vec<char> = Vec::new();
    for c in it: s.chars()
        invariant
            it.seq() == s@,
            v@ == s@.take(it.index()),
    {
        v.push(c);
    }
    v
}

/// Whether a character is white space: the code points that carry the
/// Unicode property White_Space.
pub open spec fn is_whitespace(c: char) -> bool {
    let code = c as u32;
    ||| 0x09 <= code <= 0x0D
    ||| code == 0x20
    ||| code == 0x85
    ||| code == 0xA0
    ||| code == 0x1680
    ||| 0x2000 <= code <= 0x200A
    ||| code == 0x2028
    ||| code == 0x2029
    ||| code == 0x202F
    ||| code == 0x205F
    ||| code == 0x3000
}

/// Tests one character for white space.
pub fn is_whitespace_char(c: char) -> (r: bool)
    ensures
        r == is_whitespace(c),
{
    let code: u32 = c as u32;
    (0x09 <= code && code <= 0x0D) || code == 0x20 || code == 0x85 || code == 0xA0 || code
        == 0x1680 || (0x2000 <= code && code <= 0x200A) || code == 0x2028 || code == 0x2029
        || code == 0x202F || code == 0x205F || code == 0x3000
}

/// A sequence without the white space it starts with.
pub open spec fn trim_start(s: Seq<char>) -> Seq<char>
    decreases s.len(),
{
    if s.len() > 0 && is_whitespace(s.first()) {
        trim_start(s.drop_first())
    } else {
        s
    }
}

/// A sequence without the white space it ends with.
pub open spec fn trim_end(s: Seq<char>) -> Seq<char>
    decreases s.len(),
{
    if s.len() > 0 && is_whitespace(s.last()) {
        trim_end(s.drop_last())
    } else {
        s
    }
}

/// A sequence without the white space at either end.
pub open spec fn trim(s: Seq<char>) -> Seq<char> {
    trim_end(trim_start(s))
}

/// Trimming at the start drops exactly the leading run of white space.
pub proof fn lemma_trim_start(s: Seq<char>, k: int)
    requires
        0 <= k <= s.len(),
        forall|i: int| 0 <= i < k ==> is_whitespace(#[trigger] s[i]),
        k < s.len() ==> !is_whitespace(s[k]),
    ensures
        trim_start(s) == s.skip(k),
    decreases k,
{
    if k > 0 {
        lemma_trim_start(s.drop_first(), k - 1);
    }
}

/// Trimming at the end drops exactly the trailing run of white space.
pub proof fn lemma_trim_end(s: Seq<char>, k: int)
    requires
        0 <= k <= s.len(),
        forall|i: int| k <= i < s.len() ==> is_whitespace(#[trigger] s[i]),
        0 < k ==> !is_whitespace(s[k - 1]),
    ensures
        trim_end(s) == s.take(k),
    decreases s.len() - k,
{
    if k < s.len() {
        lemma_trim_end(s.drop_last(), k);
    }
}

/// Trims the part of `v` between `lo` and `hi`: the bounds of what is left.
pub fn trim_bounds(v: &Vec<char>, lo: usize, hi: usize) -> (r: (usize, usize))
    requires
        lo <= hi <= v@.len(),
    ensures
        lo <= r.0 <= r.1 <= hi,
        v@.subrange(r.0 as int, r.1 as int) == trim(v@.subrange(lo as int, hi as int)),
{
    let ghost part = v@.subrange(lo as int, hi as int);
    let mut start: usize = lo;
    while start < hi && is_whitespace_char(v[start])
        invariant
            lo <= start <= hi <= v@.len(),
            forall|i: int| lo <= i < start ==> is_whitespace(#[trigger] v@[i]),
        decreases hi - start,
    {
        start = start + 1;
    }
    let mut end: usize = hi;
    while start < end && is_whitespace_char(v[end - 1])
        invariant
            lo <= start <= end <= hi <= v@.len(),
            forall|i: int| end <= i < hi ==> is_whitespace(#[trigger] v@[i]),
        decreases end - start,
    {
        end = end - 1;
    }
    proof {
        lemma_trim_start(part, start - lo);
        lemma_trim_end(part.skip(start - lo), end - start);
    }
    (start, end)
}

/// Looks for `c` in the part of `v` between `lo` and `hi`: where it stands
/// first, counted from the start of `v`.
pub fn find_char(v: &Vec<char>, lo: usize, hi: usize, c: char) -> (r: Option<usize>)
    requires
        lo <= hi <= v@.len(),
    ensures
        match r {
            Some(at) => lo <= at < hi && v@.subrange(lo as int, hi as int).index_of_first(c)
                == Some(at - lo),
            None => v@.subrange(lo as int, hi as int).index_of_first(c).is_none(),
        },
{
    let ghost part = v@.subrange(lo as int, hi as int);
    let mut at: usize = lo;
    while at < hi
        invariant
            lo <= at <= hi <= v@.len(),
            part == v@.subrange(lo as int, hi as int),
            forall|i: int| 0 <= i < at - lo ==> #[trigger] part[i] != c,
        decreases hi - at,
    {
        if v[at] == c {
            proof {
                assert(part[at - lo] == c);
                part.index_of_first_ensures(c);
            }
            return Some(at);
        }
        at = at + 1;
    }
    proof {
        part.index_of_first_ensures(c);
    }
    None
}

/// The decimal digit that stands for a number below ten.
pub open spec fn digit(d: nat) -> char {
    if d == 0 {
        '0'
    } else if d == 1 {
        '1'
    } else if d == 2 {
        '2'
    } else if d == 3 {
        '3'
    } else if d == 4 {
        '4'
    } else if d == 5 {
        '5'
    } else if d == 6 {
        '6'
    } else if d == 7 {
        '7'
    } else if d == 8 {
        '8'
    } else {
        '9'
    }
}

/// A number written in decimal, without leading zeros.
pub open spec fn decimal(n: nat) -> Seq<char>
    decreases n,
{
    if n < 10 {
        seq![digit(n)]
    } else {
        decimal(n / 10).push(digit(n % 10))
    }
}

fn digit_str(d: u16) -> (r: &'static str)
    requires
        d < 10,
    ensures
        r@ == seq![digit(d as nat)],
{
    proof {
        reveal_strlit("0");
        reveal_strlit("1");
        reveal_strlit("2");
        reveal_strlit("3");
        reveal_strlit("4");
        reveal_strlit("5");
        reveal_strlit("6");
        reveal_strlit("7");
        reveal_strlit("8");
        reveal_strlit("9");
    }
    if d == 0 {
        "0"
    } else if d == 1 {
        "1"
    } else if d == 2 {
        "2"
    } else if d == 3 {
        "3"
    } else if d == 4 {
        "4"
    } else if d == 5 {
        "5"
    } else if d == 6 {
        "6"
    } else if d == 7 {
        "7"
    } else if d == 8 {
        "8"
    } else {
        "9"
    }
}

/// Writes a number in decimal.
pub fn to_decimal(n: u16) -> (r: String)
    ensures
        r@ == decimal(n as nat),
    decreases n,
{
    if n < 10 {
        digit_str(n).to_owned()
    } else {
        let mut r = to_decimal(n / 10);
        r.append(digit_str(n % 10));
        r
    }
}

/// The upper-case form of a text: every character replaced by its upper-case
/// mapping in Unicode, which may be more than one character long.
pub uninterp spec fn uppercase(text: Seq<char>) -> Seq<char>;

/// Calls `str::to_uppercase` of the standard library. Its contract is taken on
/// trust: what comes back is the upper-case form of `s`, which depends on the
/// characters of `s` and on nothing else.
#[verifier::external_body]
pub(crate) fn to_uppercase(s: &str) -> (r: String)
    ensures
        r@ == uppercase(s@),
{
    s.to_uppercase()
}

} // verus!
