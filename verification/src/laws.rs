//! Properties that span several operations.

use vstd::prelude::*;

use vstd::arithmetic::div_mod::lemma_fundamental_div_mod;
use vstd::utf8::{encode_utf8, encode_utf8_decode_utf8, encode_utf8_valid_utf8};

use crate::attempt::Attempt;
use crate::cpus::{
    digits_value, entry_high, find, is_digit, is_white_space, list_high, parse_u32,
    possible_count, strip_plus, trim, trim_end, trim_start,
};
use crate::rseq::Rseq;
use crate::thread::{decimal, digit_char, Error};
use crate::words::Words;

verus! {

/// A region sized by [`Rseq::words`] has a slot for every id below
/// [`Rseq::cpus`]: every CPU id and, since `mm_cid` is below the allowed
/// CPUs, every concurrency id, so [`Words::get`] finds each of them.
pub proof fn lemma_words_cover_ids(rseq: Rseq, words: Words, id: u32)
    requires
        words.cpus() == rseq.cpus(),
        id < rseq.cpus(),
    ensures
        id < words.cpus(),
{
}

/// An add sequence and a compare sequence report a commit and an abort
/// alike; only a compare sequence can report a miss.
pub proof fn lemma_add_never_misses(a: Attempt)
    ensures
        !(a.add_result() matches Err(Error::Miss(_))),
        a is Commit ==> a.add_result() == a.compare_result(),
        a is Abort ==> a.add_result() == a.compare_result(),
{
}

proof fn lemma_decimal_digits(n: nat)
    ensures
        decimal(n).len() >= 1,
        forall|i: int| 0 <= i < decimal(n).len() ==> is_digit(#[trigger] decimal(n)[i]),
        digits_value(decimal(n)) == n,
    decreases n,
{
    assert(digit_char(n % 10) as nat == '0' as nat + n % 10);
    if n >= 10 {
        lemma_decimal_digits(n / 10);
        let s = decimal(n / 10);
        let d = decimal(n);
        assert(d.drop_last() =~= s);
        assert forall|i: int| 0 <= i < d.len() implies is_digit(#[trigger] d[i]) by {
            if i < s.len() {
                assert(d[i] == s[i]);
            }
        }
        assert(d.last() == digit_char(n % 10));
        assert(digits_value(d) == digits_value(s) * 10 + (n % 10));
        lemma_fundamental_div_mod(n as int, 10);
    } else {
        assert(decimal(n).drop_last() =~= Seq::<char>::empty());
        assert(decimal(n).last() == digit_char(n));
        assert(digits_value(decimal(n).drop_last()) == 0);
    }
}

proof fn lemma_parse_decimal(n: nat)
    requires
        n <= u32::MAX,
    ensures
        parse_u32(decimal(n)) == Some(n as u32),
{
    lemma_decimal_digits(n);
    assert(is_digit(decimal(n)[0]));
    assert(strip_plus(decimal(n)) == decimal(n));
}

proof fn lemma_no_char(s: Seq<char>, c: char)
    requires
        forall|i: int| 0 <= i < s.len() ==> is_digit(#[trigger] s[i]),
        !is_digit(c),
    ensures
        forall|i: int| 0 <= i < s.len() ==> #[trigger] s[i] != c,
{
}

proof fn lemma_find_first(s: Seq<char>, c: char, t: Seq<char>)
    requires
        forall|i: int| 0 <= i < s.len() ==> #[trigger] s[i] != c,
    ensures
        find(s + seq![c] + t, c) == s.len(),
    decreases s.len(),
{
    let u = s + seq![c] + t;
    if s.len() > 0 {
        assert(u.drop_first() =~= s.drop_first() + seq![c] + t);
        lemma_find_first(s.drop_first(), c, t);
    }
}

proof fn lemma_find_none(s: Seq<char>, c: char)
    requires
        forall|i: int| 0 <= i < s.len() ==> #[trigger] s[i] != c,
    ensures
        find(s, c) == s.len(),
    decreases s.len(),
{
    if s.len() > 0 {
        lemma_find_none(s.drop_first(), c);
    }
}

/// A possible-CPU file that names one range `lo-hi` counts `hi + 1` CPUs:
/// the count is the highest listed id plus one (`0-95` gives 96).
pub proof fn lemma_range_count(lo: u32, hi: u32)
    requires
        hi < u32::MAX,
    ensures
        possible_count(
            encode_utf8(decimal(lo as nat) + seq!['-'] + decimal(hi as nat) + seq!['\n']),
        ) == Some((hi + 1) as u32),
{
    let a = decimal(lo as nat);
    let b = decimal(hi as nat);
    let t = a + seq!['-'] + b;
    let chars = t + seq!['\n'];
    encode_utf8_valid_utf8(chars);
    encode_utf8_decode_utf8(chars);
    lemma_decimal_digits(lo as nat);
    lemma_decimal_digits(hi as nat);
    lemma_parse_decimal(lo as nat);
    lemma_parse_decimal(hi as nat);
    // `trim` drops the newline and nothing else.
    assert(chars[0] == a[0]);
    assert(is_digit(chars[0]));
    assert(chars.subrange(0, chars.len() as int) =~= chars);
    assert(trim_start(chars) == chars);
    assert(chars.drop_last() =~= t);
    assert(t.last() == b[b.len() - 1]);
    assert(is_digit(t.last()));
    assert(trim_end(t) == t);
    assert(trim(chars) == t);
    // The one entry is the whole text, and its `-` follows `lo`.
    lemma_no_char(a, '-');
    lemma_find_first(a, '-', b);
    assert(t.subrange(0, a.len() as int) =~= a);
    assert(t.subrange(a.len() as int + 1, t.len() as int) =~= b);
    assert(entry_high(t) == Some(hi));
    assert forall|i: int| 0 <= i < t.len() implies #[trigger] t[i] != ',' by {
        if i < a.len() {
            assert(t[i] == a[i]);
            assert(is_digit(a[i]));
        } else if i > a.len() {
            assert(t[i] == b[i - a.len() - 1]);
            assert(is_digit(b[i - a.len() - 1]));
        }
    }
    lemma_find_none(t, ',');
    assert(t.subrange(0, t.len() as int) =~= t);
    assert(list_high(t, 0) == Some(hi));
}

/// A compare sequence's outcome becomes the operation's result value for
/// value: a commit is `Ok` of the word's old value, a miss is `Miss` of the
/// value seen (never an abort, whatever that value), and only an abort is
/// `Abort`. An add sequence keeps a commit's value the same way.
pub proof fn lemma_outcomes_keep_values(v: usize)
    ensures
        Attempt::Commit(v).compare_result() == Ok::<usize, Error>(v),
        Attempt::Miss(v).compare_result() == Err::<usize, Error>(Error::Miss(v)),
        Attempt::Abort.compare_result() == Err::<usize, Error>(Error::Abort),
        Attempt::Commit(v).add_result() == Ok::<usize, Error>(v),
        Attempt::Miss(v).add_result() == Err::<usize, Error>(Error::Abort),
        Attempt::Abort.add_result() == Err::<usize, Error>(Error::Abort),
{
}

/// The list entry `lo-hi`.
pub open spec fn range_text(r: (u32, u32)) -> Seq<char> {
    decimal(r.0 as nat) + seq!['-'] + decimal(r.1 as nat)
}

/// Range entries joined by commas, in order.
pub open spec fn ranges_text(es: Seq<(u32, u32)>) -> Seq<char>
    decreases es.len(),
{
    if es.len() <= 1 {
        if es.len() == 1 {
            range_text(es[0])
        } else {
            Seq::empty()
        }
    } else {
        range_text(es[0]) + seq![','] + ranges_text(es.drop_first())
    }
}

proof fn lemma_range_entry(r: (u32, u32))
    ensures
        range_text(r).len() > 0,
        is_digit(range_text(r)[0]),
        is_digit(range_text(r).last()),
        forall|i: int| 0 <= i < range_text(r).len() ==> #[trigger] range_text(r)[i] != ',',
        entry_high(range_text(r)) == Some(r.1),
{
    let a = decimal(r.0 as nat);
    let b = decimal(r.1 as nat);
    let t = range_text(r);
    lemma_decimal_digits(r.0 as nat);
    lemma_decimal_digits(r.1 as nat);
    lemma_parse_decimal(r.0 as nat);
    lemma_parse_decimal(r.1 as nat);
    assert(t[0] == a[0]);
    assert(t.last() == b[b.len() - 1]);
    lemma_no_char(a, '-');
    lemma_find_first(a, '-', b);
    assert(t.subrange(0, a.len() as int) =~= a);
    assert(t.subrange(a.len() as int + 1, t.len() as int) =~= b);
    assert forall|i: int| 0 <= i < t.len() implies #[trigger] t[i] != ',' by {
        if i < a.len() {
            assert(t[i] == a[i]);
            assert(is_digit(a[i]));
        } else if i > a.len() {
            assert(t[i] == b[i - a.len() - 1]);
            assert(is_digit(b[i - a.len() - 1]));
        }
    }
}

proof fn lemma_ranges_shape(es: Seq<(u32, u32)>)
    requires
        es.len() >= 1,
    ensures
        ranges_text(es).len() > 0,
        is_digit(ranges_text(es)[0]),
        is_digit(ranges_text(es).last()),
    decreases es.len(),
{
    lemma_range_entry(es[0]);
    if es.len() > 1 {
        lemma_ranges_shape(es.drop_first());
        let x = range_text(es[0]);
        let y = ranges_text(es.drop_first());
        let t = x + seq![','] + y;
        assert(t[0] == x[0]);
        assert(t.last() == y.last());
    }
}

/// The fold over the entries of `ranges_text(es)`, started at `acc`, ends at
/// the greatest of `acc` and every entry's `hi`.
proof fn lemma_ranges_high(es: Seq<(u32, u32)>, acc: u32)
    requires
        es.len() >= 1,
    ensures
        list_high(ranges_text(es), acc) matches Some(m) && m >= acc && (forall|i: int|
            0 <= i < es.len() ==> #[trigger] es[i].1 <= m) && (m == acc || exists|i: int|
            #![trigger es[i]]
            0 <= i < es.len() && es[i].1 == m),
    decreases es.len(),
{
    let x = range_text(es[0]);
    let h = es[0].1;
    let m0 = if acc < h {
        h
    } else {
        acc
    };
    lemma_range_entry(es[0]);
    if es.len() == 1 {
        lemma_find_none(x, ',');
        assert(x.subrange(0, x.len() as int) =~= x);
        assert(es[0].1 == h);
    } else {
        let rest = es.drop_first();
        let y = ranges_text(rest);
        let t = x + seq![','] + y;
        assert(ranges_text(es) == t);
        lemma_find_first(x, ',', y);
        assert(t.subrange(0, x.len() as int) =~= x);
        assert(t.subrange(x.len() as int + 1, t.len() as int) =~= y);
        assert(list_high(t, acc) == list_high(y, m0));
        lemma_ranges_high(rest, m0);
        let m = list_high(y, m0)->0;
        assert forall|i: int| 0 <= i < es.len() implies #[trigger] es[i].1 <= m by {
            if i > 0 {
                assert(es[i] == rest[i - 1]);
            }
        }
        if m != acc {
            if m == m0 {
                assert(es[0].1 == m);
            } else {
                let j = choose|j: int| #![trigger rest[j]] 0 <= j < rest.len() && rest[j].1 == m;
                assert(es[j + 1] == rest[j]);
            }
        }
    }
}

/// A possible-CPU file that lists ranges `lo-hi` joined by commas counts one
/// more than the highest `hi` over every entry, wherever in the list it
/// stands (`0-3,8-11,16-19` gives 20).
pub proof fn lemma_ranges_count(es: Seq<(u32, u32)>)
    requires
        es.len() >= 1,
        forall|i: int| 0 <= i < es.len() ==> #[trigger] es[i].1 < u32::MAX,
    ensures
        possible_count(encode_utf8(ranges_text(es) + seq!['\n'])) matches Some(c) && (forall|i: int|
            0 <= i < es.len() ==> #[trigger] es[i].1 < c) && (exists|i: int|
            #![trigger es[i]]
            0 <= i < es.len() && es[i].1 + 1 == c),
{
    let t = ranges_text(es);
    let chars = t + seq!['\n'];
    encode_utf8_valid_utf8(chars);
    encode_utf8_decode_utf8(chars);
    lemma_ranges_shape(es);
    assert(chars[0] == t[0]);
    assert(chars.subrange(0, chars.len() as int) =~= chars);
    assert(trim_start(chars) == chars);
    assert(chars.drop_last() =~= t);
    assert(trim_end(t) == t);
    assert(trim(chars) == t);
    lemma_ranges_high(es, 0);
    let m = list_high(t, 0)->0;
    if m == 0 {
        assert(es[0].1 <= m);
        assert(es[0].1 == m);
    }
    let i = choose|i: int| #![trigger es[i]] 0 <= i < es.len() && es[i].1 == m;
    assert(es[i].1 < u32::MAX);
    assert(m < u32::MAX);
    assert(es[i].1 + 1 == (m + 1) as u32);
}

} // verus!
