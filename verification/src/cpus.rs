//! Possible-CPU count from the text of `/sys/devices/system/cpu/possible`.
//!
//! The file is a comma-separated list of CPU ids and id ranges (`0-95`,
//! `0,2-3`). The count is the highest listed id plus one.

use vstd::prelude::*;
use vstd::string::StringSliceAdditionalSpecFns;
use vstd::utf8::{decode_utf8, encode_utf8_decode_utf8, valid_utf8};

verus! {

/// Unicode `White_Space`, the set that `str::trim` removes.
pub open spec fn is_white_space(c: char) -> bool {
    let u = c as u32;
    ||| 0x09 <= u <= 0x0d
    ||| u == 0x20
    ||| u == 0x85
    ||| u == 0xa0
    ||| u == 0x1680
    ||| 0x2000 <= u <= 0x200a
    ||| u == 0x2028
    ||| u == 0x2029
    ||| u == 0x202f
    ||| u == 0x205f
    ||| u == 0x3000
}

/// `s` without its leading white space.
pub open spec fn trim_start(s: Seq<char>) -> Seq<char>
    decreases s.len(),
{
    if s.len() > 0 && is_white_space(s[0]) {
        trim_start(s.drop_first())
    } else {
        s
    }
}

/// `s` without its trailing white space.
pub open spec fn trim_end(s: Seq<char>) -> Seq<char>
    decreases s.len(),
{
    if s.len() > 0 && is_white_space(s.last()) {
        trim_end(s.drop_last())
    } else {
        s
    }
}

/// `s` without leading and trailing white space, as `str::trim`.
pub open spec fn trim(s: Seq<char>) -> Seq<char> {
    trim_end(trim_start(s))
}

/// Index of the first `c` in `s`, or `s.len()` when there is none.
pub open spec fn find(s: Seq<char>, c: char) -> nat
    decreases s.len(),
{
    if s.len() == 0 {
        0
    } else if s[0] == c {
        0
    } else {
        1 + find(s.drop_first(), c)
    }
}

pub open spec fn is_digit(c: char) -> bool {
    '0' <= c <= '9'
}

/// Decimal value of a run of digits.
pub open spec fn digits_value(d: Seq<char>) -> nat
    decreases d.len(),
{
    if d.len() == 0 {
        0
    } else {
        digits_value(d.drop_last()) * 10 + (d.last() as nat - '0' as nat) as nat
    }
}

/// `s` without one leading `+`.
pub open spec fn strip_plus(s: Seq<char>) -> Seq<char> {
    if s.len() > 0 && s[0] == '+' {
        s.drop_first()
    } else {
        s
    }
}

/// One or more decimal digits whose value fits in a `u32`.
pub open spec fn digits_u32(d: Seq<char>) -> Option<u32> {
    if d.len() > 0 && (forall|i: int| 0 <= i < d.len() ==> is_digit(#[trigger] d[i]))
        && digits_value(d) <= u32::MAX {
        Some(digits_value(d) as u32)
    } else {
        None
    }
}

/// `s.parse::<u32>()`: an optional `+`, then one or more decimal digits
/// whose value fits in a `u32`.
pub open spec fn parse_u32(s: Seq<char>) -> Option<u32> {
    digits_u32(strip_plus(s))
}

/// The highest id one list entry names: `n`, or `lo-hi` where both parse.
pub open spec fn entry_high(p: Seq<char>) -> Option<u32> {
    let i = find(p, '-') as int;
    if i < p.len() {
        match parse_u32(p.subrange(0, i)) {
            Some(_) => parse_u32(p.subrange(i + 1, p.len() as int)),
            None => None,
        }
    } else {
        parse_u32(p)
    }
}

/// Greatest of `acc` and the high ids of the comma-separated entries of
/// `rest`; `None` if an entry does not parse.
pub open spec fn list_high(rest: Seq<char>, acc: u32) -> Option<u32>
    decreases rest.len(),
{
    let i = find(rest, ',') as int;
    match entry_high(rest.subrange(0, i)) {
        None => None,
        Some(h) => {
            let m = if acc < h {
                h
            } else {
                acc
            };
            if i < rest.len() {
                list_high(rest.subrange(i + 1, rest.len() as int), m)
            } else {
                Some(m)
            }
        },
    }
}

/// Possible-CPU count of a file's text: its highest listed id plus one.
/// `None` for text that is not UTF-8, is blank, holds an entry that does not
/// parse, or whose highest id is `u32::MAX`.
pub open spec fn possible_count(text: Seq<u8>) -> Option<u32> {
    if !valid_utf8(text) {
        None
    } else {
        let t = trim(decode_utf8(text));
        if t.len() == 0 {
            None
        } else {
            match list_high(t, 0) {
                Some(m) => if m < u32::MAX {
                    Some((m + 1) as u32)
                } else {
                    None
                },
                None => None,
            }
        }
    }
}


proof fn lemma_find_at(s: Seq<char>, c: char, i: int)
    requires
        0 <= i <= s.len(),
        forall|k: int| 0 <= k < i ==> s[k] != c,
        i == s.len() || s[i] == c,
    ensures
        find(s, c) == i,
    decreases s.len(),
{
    if s.len() > 0 && s[0] != c {
        lemma_find_at(s.drop_first(), c, i - 1);
    }
}

proof fn lemma_trim_start_at(s: Seq<char>, a: int)
    requires
        0 <= a <= s.len(),
        forall|k: int| 0 <= k < a ==> is_white_space(#[trigger] s[k]),
        a == s.len() || !is_white_space(s[a]),
    ensures
        trim_start(s) == s.subrange(a, s.len() as int),
    decreases s.len(),
{
    if s.len() > 0 && is_white_space(s[0]) {
        lemma_trim_start_at(s.drop_first(), a - 1);
        assert(s.drop_first().subrange(a - 1, s.len() - 1) =~= s.subrange(a, s.len() as int));
    } else {
        assert(s.subrange(0, s.len() as int) =~= s);
    }
}

proof fn lemma_trim_end_at(s: Seq<char>, b: int)
    requires
        0 <= b <= s.len(),
        forall|k: int| b <= k < s.len() ==> is_white_space(#[trigger] s[k]),
        b == 0 || !is_white_space(s[b - 1]),
    ensures
        trim_end(s) == s.subrange(0, b),
    decreases s.len(),
{
    if s.len() > 0 && is_white_space(s.last()) {
        lemma_trim_end_at(s.drop_last(), b);
        assert(s.drop_last().subrange(0, b) =~= s.subrange(0, b));
    } else {
        assert(s.subrange(0, s.len() as int) =~= s);
    }
}

proof fn lemma_digits_step(d: Seq<char>, k: int)
    requires
        0 <= k < d.len(),
    ensures
        digits_value(d.subrange(0, k + 1)) == digits_value(d.subrange(0, k)) * 10 + (d[k] as nat
            - '0' as nat) as nat,
{
    assert(d.subrange(0, k + 1).drop_last() =~= d.subrange(0, k));
}

proof fn lemma_digits_prefix_le(d: Seq<char>, k: int)
    requires
        0 <= k <= d.len(),
        forall|i: int| 0 <= i < d.len() ==> is_digit(#[trigger] d[i]),
    ensures
        digits_value(d.subrange(0, k)) <= digits_value(d),
    decreases d.len(),
{
    if k == d.len() {
        assert(d.subrange(0, k) =~= d);
    } else {
        let e = d.drop_last();
        assert(e.subrange(0, k) =~= d.subrange(0, k));
        assert forall|i: int| 0 <= i < e.len() implies is_digit(#[trigger] e[i]) by {
            assert(e[i] == d[i]);
        }
        lemma_digits_prefix_le(e, k);
    }
}

/// `core::str::from_utf8`: the bytes as a string slice when they are UTF-8.
#[verifier::external_body]
fn utf8(bytes: &[u8]) -> (r: Option<&str>)
    ensures
        r is Some <==> valid_utf8(bytes@),
        r matches Some(s) ==> s.spec_bytes() == bytes@,
{
    core::str::from_utf8(bytes).ok()
}

/// Index of the first `c` in `v[lo..hi]`, or `hi`.
fn find_in(v: &Vec<char>, lo: usize, hi: usize, c: char) -> (r: usize)
    requires
        lo <= hi <= v.len(),
    ensures
        lo <= r <= hi,
        r - lo == find(v@.subrange(lo as int, hi as int), c),
{
    let mut j = lo;
    while j < hi && v[j] != c
        invariant
            lo <= j <= hi <= v.len(),
            forall|k: int| lo <= k < j ==> v@[k] != c,
        decreases hi - j,
    {
        j += 1;
    }
    proof {
        let s = v@.subrange(lo as int, hi as int);
        assert forall|k: int| 0 <= k < j - lo implies s[k] != c by {
            assert(s[k] == v@[lo + k]);
        }
        lemma_find_at(s, c, j - lo);
    }
    j
}

/// `v[lo..hi].parse::<u32>()`.
fn parse_u32_in(v: &Vec<char>, lo: usize, hi: usize) -> (r: Option<u32>)
    requires
        lo <= hi <= v.len(),
    ensures
        r == parse_u32(v@.subrange(lo as int, hi as int)),
{
    let ghost s = v@.subrange(lo as int, hi as int);
    let mut start = lo;
    if start < hi && v[start] == '+' {
        start += 1;
    }
    let ghost d = v@.subrange(start as int, hi as int);
    assert(strip_plus(s) =~= d);
    if start == hi {
        return None;
    }
    let mut acc: u64 = 0;
    let mut i = start;
    while i < hi
        invariant
            start < hi <= v.len(),
            start <= i <= hi,
            d == v@.subrange(start as int, hi as int),
            parse_u32(v@.subrange(lo as int, hi as int)) == digits_u32(d),
            forall|k: int| 0 <= k < i - start ==> is_digit(#[trigger] d[k]),
            acc == digits_value(d.subrange(0, i - start)),
            acc <= u32::MAX,
        decreases hi - i,
    {
        let c = v[i];
        if !('0' <= c && c <= '9') {
            assert(!is_digit(d[i - start]));
            return None;
        }
        proof {
            lemma_digits_step(d, i - start);
            assert(d.subrange(0, i - start + 1) == d.subrange(0, (i + 1) - start));
        }
        acc = acc * 10 + ((c as u32) - ('0' as u32)) as u64;
        i += 1;
        if acc > 0xffff_ffff {
            proof {
                if forall|k: int| 0 <= k < d.len() ==> is_digit(#[trigger] d[k]) {
                    lemma_digits_prefix_le(d, i - start);
                }
            }
            return None;
        }
    }
    assert(d.subrange(0, i - start) =~= d);
    Some(acc as u32)
}

/// `entry_high` of `v[lo..hi]`.
fn entry_high_in(v: &Vec<char>, lo: usize, hi: usize) -> (r: Option<u32>)
    requires
        lo <= hi <= v.len(),
    ensures
        r == entry_high(v@.subrange(lo as int, hi as int)),
{
    let ghost p = v@.subrange(lo as int, hi as int);
    let m = find_in(v, lo, hi, '-');
    if m < hi {
        assert(p.subrange(0, m - lo) =~= v@.subrange(lo as int, m as int));
        assert(p.subrange(m - lo + 1, p.len() as int) =~= v@.subrange(m + 1, hi as int));
        match parse_u32_in(v, lo, m) {
            Some(_) => parse_u32_in(v, m + 1, hi),
            None => None,
        }
    } else {
        parse_u32_in(v, lo, hi)
    }
}

/// The characters of `s`.
fn chars_of(s: &str) -> (v: Vec<char>)
    ensures
        v@ == s@,
{
    let n = s.unicode_len();
    let mut v: Vec<char> = Vec::new();
    let mut i: usize = 0;
    while i < n
        invariant
            n == s@.len(),
            i <= n,
            v@ == s@.subrange(0, i as int),
        decreases n - i,
    {
        v.push(s.get_char(i));
        i += 1;
        assert(v@ =~= s@.subrange(0, i as int));
    }
    assert(v@ =~= s@);
    v
}

/// Bounds of `v` without leading and trailing white space.
fn trim_bounds(v: &Vec<char>) -> (r: (usize, usize))
    ensures
        r.0 <= r.1 <= v.len(),
        trim(v@) == v@.subrange(r.0 as int, r.1 as int),
{
    let n = v.len();
    let mut a: usize = 0;
    while a < n && is_white_space_char(v[a])
        invariant
            a <= n == v.len(),
            forall|k: int| 0 <= k < a ==> is_white_space(#[trigger] v@[k]),
        decreases n - a,
    {
        a += 1;
    }
    let mut b: usize = n;
    while b > a && is_white_space_char(v[b - 1])
        invariant
            a <= b <= n == v.len(),
            forall|k: int| b <= k < n ==> is_white_space(#[trigger] v@[k]),
        decreases b - a,
    {
        b -= 1;
    }
    proof {
        lemma_trim_start_at(v@, a as int);
        let u = v@.subrange(a as int, n as int);
        assert forall|k: int| b - a <= k < u.len() implies is_white_space(#[trigger] u[k]) by {
            assert(u[k] == v@[a + k]);
        }
        if b > a {
            assert(u[b - a - 1] == v@[b - 1]);
        }
        lemma_trim_end_at(u, b - a);
        assert(u.subrange(0, b - a) =~= v@.subrange(a as int, b as int));
    }
    (a, b)
}

/// `list_high(v[a..b], 0)`.
fn list_high_in(v: &Vec<char>, a: usize, b: usize) -> (r: Option<u32>)
    requires
        a <= b <= v.len(),
    ensures
        r == list_high(v@.subrange(a as int, b as int), 0),
{
    let ghost t = v@.subrange(a as int, b as int);
    let mut start = a;
    let mut acc: u32 = 0;
    loop
        invariant
            a <= start <= b <= v.len(),
            t == v@.subrange(a as int, b as int),
            list_high(t, 0) == list_high(v@.subrange(start as int, b as int), acc),
        decreases b - start,
    {
        let ghost rest = v@.subrange(start as int, b as int);
        let j = find_in(v, start, b, ',');
        assert(rest.subrange(0, j - start) =~= v@.subrange(start as int, j as int));
        match entry_high_in(v, start, j) {
            None => return None,
            Some(h) => {
                if acc < h {
                    acc = h;
                }
                if j < b {
                    assert(rest.subrange(j - start + 1, rest.len() as int) =~= v@.subrange(
                        j + 1,
                        b as int,
                    ));
                    start = j + 1;
                } else {
                    return Some(acc);
                }
            },
        }
    }
}

/// Highest id of the process's possible CPUs plus one (`0-95` gives 96).
#[derive(Clone, Copy, Debug, Eq, PartialEq, Structural)]
pub struct Cpus(u32);

impl View for Cpus {
    type V = u32;

    closed spec fn view(&self) -> u32 {
        self.0
    }
}

impl Cpus {
    /// Two values are equal exactly when their ids are.
    pub proof fn lemma_view_injective(self, other: Self)
        ensures
            (self == other) <==> (self@ == other@),
    {
    }

    #[verifier::type_invariant]
    closed spec fn nonzero(self) -> bool {
        self.0 > 0
    }

    /// Count from the bytes of `/sys/devices/system/cpu/possible`.
    ///
    /// `None` if the text is not UTF-8, is blank, holds an entry that is not
    /// an id or an `lo-hi` range of ids, or the count does not fit a `u32`.
    pub fn parse(text: &[u8]) -> (r: Option<Self>)
        ensures
            r is Some <==> possible_count(text@) is Some,
            r matches Some(c) ==> possible_count(text@) == Some(c@),
            r matches Some(c) ==> c@ > 0,
    {
        let s = match utf8(text) {
            Some(s) => s,
            None => return None,
        };
        proof {
            encode_utf8_decode_utf8(s@);
        }
        let v = chars_of(s);
        let (a, b) = trim_bounds(&v);
        if a == b {
            return None;
        }
        match list_high_in(&v, a, b) {
            None => None,
            Some(m) => if m == 0xffff_ffff {
                None
            } else {
                Some(Cpus(m + 1))
            },
        }
    }

    /// The count.
    pub fn get(self) -> (r: u32)
        ensures
            r == self@,
            r > 0,
    {
        proof {
            use_type_invariant(self);
        }
        self.0
    }
}

/// `char::is_whitespace`.
fn is_white_space_char(c: char) -> (r: bool)
    ensures
        r == is_white_space(c),
{
    let u = c as u32;
    (0x09 <= u && u <= 0x0d) || u == 0x20 || u == 0x85 || u == 0xa0 || u == 0x1680 || (0x2000 <= u
        && u <= 0x200a) || u == 0x2028 || u == 0x2029 || u == 0x202f || u == 0x205f || u == 0x3000
}

} // verus!
