//! Character-level helpers on log lines: views as character sequences,
//! substring search, and decimal port numbers.

use vstd::prelude::*;
use vstd::std_specs::iter::IteratorSpec;

verus! {

/// `n` occurs in `h` starting at index `i`.
pub open spec fn occurs_at(h: Seq<char>, n: Seq<char>, i: int) -> bool {
    0 <= i && i + n.len() <= h.len() && h.subrange(i, i + n.len()) == n
}

/// `n` is a substring of `h`.
pub open spec fn contains(h: Seq<char>, n: Seq<char>) -> bool {
    exists|i: int| occurs_at(h, n, i)
}

/// The first index at or after `i` where `n` occurs in `h`.
pub open spec fn find_from(h: Seq<char>, n: Seq<char>, i: int) -> Option<int>
    decreases h.len() + 1 - i,
{
    if i < 0 || i + n.len() > h.len() {
        None
    } else if occurs_at(h, n, i) {
        Some(i)
    } else {
        find_from(h, n, i + 1)
    }
}

/// The first index where `n` occurs in `h`.
pub open spec fn find(h: Seq<char>, n: Seq<char>) -> Option<int> {
    find_from(h, n, 0)
}

/// What follows the first occurrence of `n` in `h`, if there is one.
pub open spec fn after(h: Seq<char>, n: Seq<char>) -> Option<Seq<char>> {
    match find(h, n) {
        Some(i) => Some(h.subrange(i + n.len(), h.len() as int)),
        None => None,
    }
}

proof fn lemma_find_from(h: Seq<char>, n: Seq<char>, i: int)
    requires
        0 <= i,
    ensures
        find_from(h, n, i) matches Some(k) ==> i <= k && occurs_at(h, n, k),
        find_from(h, n, i) is None ==> forall|k: int| i <= k ==> !occurs_at(h, n, k),
    decreases h.len() + 1 - i,
{
    if i + n.len() > h.len() {
    } else if occurs_at(h, n, i) {
    } else {
        lemma_find_from(h, n, i + 1);
        assert forall|k: int| i <= k && find_from(h, n, i) is None implies !occurs_at(h, n, k) by {
            if k > i {
            }
        }
    }
}

/// The first occurrence is an occurrence, and there is one exactly when `n`
/// is a substring of `h`.
pub proof fn lemma_find(h: Seq<char>, n: Seq<char>)
    ensures
        find(h, n) is Some <==> contains(h, n),
        find(h, n) matches Some(k) ==> occurs_at(h, n, k),
{
    lemma_find_from(h, n, 0);
}

/// The characters of `s`, one by one.
pub fn chars_of(s: &str) -> (r: Vec<char>)
    ensures
        r@ == s@,
{
    let mut it = s.chars();
    let mut out: Vec<char> = Vec::new();
    loop
        invariant
            out@ + it.remaining() == s@,
            it.decrease() is Some,
        ensures
            out@ == s@,
        decreases it.decrease()->0,
    {
        match it.next() {
            Some(c) => {
                out.push(c);
            },
            None => {
                assert(out@ + it.remaining() =~= out@);
                break;
            },
        }
    }
    out
}

/// Whether `n` occurs in `h` at index `i`.
fn occurs_at_exec(h: &Vec<char>, n: &Vec<char>, i: usize) -> (r: bool)
    requires
        i + n@.len() <= h@.len(),
    ensures
        r == occurs_at(h@, n@, i as int),
{
    let hl = h.len();
    let mut j: usize = 0;
    while j < n.len()
        invariant
            hl == h@.len(),
            i + n@.len() <= h@.len(),
            j <= n@.len(),
            forall|k: int| 0 <= k < j ==> h@[i + k] == n@[k],
        decreases n@.len() - j,
    {
        if h[i + j] != n[j] {
            assert(h@.subrange(i as int, i + n@.len())[j as int] != n@[j as int]);
            return false;
        }
        j = j + 1;
    }
    assert(h@.subrange(i as int, i + n@.len()) =~= n@);
    true
}

/// The index of the first occurrence of `n` in `h`.
pub fn find_chars(h: &Vec<char>, n: &Vec<char>) -> (r: Option<usize>)
    ensures
        match r {
            Some(k) => find(h@, n@) == Some(k as int),
            None => find(h@, n@) is None,
        },
{
    if n.len() > h.len() {
        return None;
    }
    if n.len() == 0 {
        assert(h@.subrange(0, 0) =~= n@);
        return Some(0);
    }
    let last: usize = h.len() - n.len();
    let mut i: usize = 0;
    while i <= last
        invariant
            n@.len() <= h@.len(),
            last == h@.len() - n@.len(),
            n@.len() >= 1,
            h@.len() <= usize::MAX,
            i <= last + 1,
            find(h@, n@) == find_from(h@, n@, i as int),
        decreases h@.len() + 1 - i,
    {
        if occurs_at_exec(h, n, i) {
            return Some(i);
        }
        i = i + 1;
    }
    None
}

/// Whether `needle` is a substring of `hay`.
pub fn contains_str(hay: &str, needle: &str) -> (r: bool)
    ensures
        r == contains(hay@, needle@),
{
    let h = chars_of(hay);
    let n = chars_of(needle);
    proof {
        lemma_find(h@, n@);
    }
    find_chars(&h, &n).is_some()
}

/// Whether `a` and `b` hold the same characters.
pub fn str_eq(a: &str, b: &str) -> (r: bool)
    ensures
        r == (a@ == b@),
{
    let x = chars_of(a);
    let y = chars_of(b);
    if x.len() != y.len() {
        return false;
    }
    let mut i: usize = 0;
    while i < x.len()
        invariant
            x@ == a@,
            y@ == b@,
            x@.len() == y@.len(),
            i <= x@.len(),
            forall|k: int| 0 <= k < i ==> x@[k] == y@[k],
        decreases x@.len() - i,
    {
        if x[i] != y[i] {
            assert(x@[i as int] != y@[i as int]);
            return false;
        }
        i = i + 1;
    }
    assert(x@ =~= y@);
    true
}

/// Relies on `String::push`: the character is appended at the end.
#[verifier::external_body]
fn push_char(s: &mut String, c: char)
    ensures
        final(s)@ == old(s)@.push(c),
{
    s.push(c);
}

/// The characters of `cs` from `lo` up to `hi`, as a `String`.
pub fn string_of(cs: &Vec<char>, lo: usize, hi: usize) -> (r: String)
    requires
        lo <= hi <= cs@.len(),
    ensures
        r@ == cs@.subrange(lo as int, hi as int),
{
    let mut out = String::new();
    let mut k: usize = lo;
    while k < hi
        invariant
            lo <= k <= hi <= cs@.len(),
            out@ == cs@.subrange(lo as int, k as int),
        decreases hi - k,
    {
        push_char(&mut out, cs[k]);
        assert(cs@.subrange(lo as int, k + 1) =~= cs@.subrange(lo as int, k as int).push(cs@[k as int]));
        k = k + 1;
    }
    out
}

pub open spec fn is_digit(c: char) -> bool {
    '0' <= c && c <= '9'
}

pub open spec fn digit_value(c: char) -> nat {
    ((c as u32) - ('0' as u32)) as nat
}

/// How many decimal digits end `s`.
pub open spec fn trailing_digits(s: Seq<char>) -> nat
    decreases s.len(),
{
    if s.len() == 0 || !is_digit(s.last()) {
        0
    } else {
        1 + trailing_digits(s.drop_last())
    }
}

/// The number that the decimal digits `s` write.
pub open spec fn decimal_value(s: Seq<char>) -> nat
    decreases s.len(),
{
    if s.len() == 0 {
        0
    } else {
        decimal_value(s.drop_last()) * 10 + digit_value(s.last())
    }
}

pub open spec fn pow10(n: nat) -> nat
    decreases n,
{
    if n == 0 {
        1
    } else {
        10 * pow10((n - 1) as nat)
    }
}

/// The port that ends `s`: a colon followed by one to five decimal digits
/// that make a number below 65536, with nothing after them.
pub open spec fn port_of(s: Seq<char>) -> Option<u16> {
    let n = trailing_digits(s);
    let digits = s.subrange(s.len() - n, s.len() as int);
    if 1 <= n <= 5 && n < s.len() && s[s.len() - n - 1] == ':' && decimal_value(digits) <= 65535 {
        Some(decimal_value(digits) as u16)
    } else {
        None
    }
}

proof fn lemma_trailing_digits_bound(s: Seq<char>)
    ensures
        trailing_digits(s) <= s.len(),
        forall|k: int| s.len() - trailing_digits(s) <= k < s.len() ==> is_digit(#[trigger] s[k]),
    decreases s.len(),
{
    if s.len() > 0 && is_digit(s.last()) {
        lemma_trailing_digits_bound(s.drop_last());
        assert forall|k: int| s.len() - trailing_digits(s) <= k < s.len() implies is_digit(#[trigger] s[k]) by {
            if k < s.len() - 1 {
                assert(s[k] == s.drop_last()[k]);
            }
        }
    }
}

/// The port that ends `cs[lo..]`, as `port_of` says.
pub fn port_at_end(cs: &Vec<char>, lo: usize) -> (r: Option<u16>)
    requires
        lo <= cs@.len(),
    ensures
        r == port_of(cs@.subrange(lo as int, cs@.len() as int)),
{
    let ghost s = cs@.subrange(lo as int, cs@.len() as int);
    let len = cs.len();
    let mut j: usize = len;
    while j > lo && '0' <= cs[j - 1] && cs[j - 1] <= '9'
        invariant
            lo <= j <= len == cs@.len(),
            s == cs@.subrange(lo as int, len as int),
            trailing_digits(s) == (len - j) + trailing_digits(cs@.subrange(lo as int, j as int)),
        decreases j,
    {
        assert(cs@.subrange(lo as int, j as int).drop_last() =~= cs@.subrange(lo as int, j - 1));
        j = j - 1;
    }
    proof {
        lemma_trailing_digits_bound(s);
    }
    let n: usize = len - j;
    if n < 1 || n > 5 || j == lo {
        return None;
    }
    assert(s[s.len() - n - 1] == cs@[j - 1]);
    if cs[j - 1] != ':' {
        return None;
    }
    assert forall|t: int| j <= t < len implies is_digit(#[trigger] cs@[t]) by {
        assert(cs@[t] == s[t - lo]);
    }
    assert(s.subrange(s.len() - n, s.len() as int) =~= cs@.subrange(j as int, len as int));
    let mut v: u32 = 0;
    let mut k: usize = j;
    while k < len
        invariant
            j <= k <= len == cs@.len(),
            len - j <= 5,
            forall|t: int| j <= t < len ==> is_digit(#[trigger] cs@[t]),
            v as nat == decimal_value(cs@.subrange(j as int, k as int)),
            (v as nat) < pow10((k - j) as nat),
        decreases len - k,
    {
        let d = cs[k] as u32 - '0' as u32;
        proof {
            assert(cs@.subrange(j as int, k + 1).drop_last() =~= cs@.subrange(j as int, k as int));
            let m = (k - j) as nat;
            assert(pow10(m + 1) == 10 * pow10(m));
            reveal_with_fuel(pow10, 6);
            assert(pow10(m) <= 10000) by {
                if m < 5 {
                    lemma_pow10_mono(m, 4);
                }
            }
            assert((v as nat) * 10 + (d as nat) < 10 * pow10(m)) by (nonlinear_arith)
                requires (v as nat) < pow10(m), d <= 9;
        }
        v = v * 10 + d;
        k = k + 1;
    }
    if v > 65535 {
        None
    } else {
        Some(v as u16)
    }
}

proof fn lemma_pow10_mono(a: nat, b: nat)
    requires
        a <= b,
    ensures
        pow10(a) <= pow10(b),
    decreases b,
{
    if a < b {
        lemma_pow10_mono(a, (b - 1) as nat);
    }
}

} // verus!
