//! Character-level helpers over the views of `str` and `String` (`Seq<char>`):
//! the trimming, prefix and splitting operations that the launcher's URL
//! handling is defined with, and executable counterparts over `Vec<char>`.

use vstd::prelude::*;

verus! {

/// `char::is_whitespace`: the Unicode `White_Space` property.
pub open spec fn is_whitespace(c: char) -> bool {
    ||| ('\u{9}' <= c && c <= '\u{d}')
    ||| c == ' '
    ||| c == '\u{85}'
    ||| c == '\u{a0}'
    ||| c == '\u{1680}'
    ||| ('\u{2000}' <= c && c <= '\u{200a}')
    ||| c == '\u{2028}'
    ||| c == '\u{2029}'
    ||| c == '\u{202f}'
    ||| c == '\u{205f}'
    ||| c == '\u{3000}'
}

/// The whitespace characters by code: 9-13, 32, 133, 160, 5760,
/// 8192-8202, 8232, 8233, 8239, 8287 and 12288.
pub proof fn law_whitespace_codes(c: char)
    ensures
        is_whitespace(c) <==> {
            let k = c as u32;
            (9 <= k <= 13) || k == 32 || k == 133 || k == 160 || k == 5760 || (8192 <= k <= 8202)
                || k == 8232 || k == 8233 || k == 8239 || k == 8287 || k == 12288
        },
{
}

/// Some character of `s` is whitespace.
pub open spec fn has_whitespace(s: Seq<char>) -> bool {
    exists|i: int| 0 <= i < s.len() && is_whitespace(#[trigger] s[i])
}

/// `s` begins with `p`.
pub open spec fn starts_with(s: Seq<char>, p: Seq<char>) -> bool {
    p.len() <= s.len() && s.take(p.len() as int) == p
}

/// `s` ends with `p`.
pub open spec fn ends_with(s: Seq<char>, p: Seq<char>) -> bool {
    p.len() <= s.len() && s.skip(s.len() - p.len()) == p
}

/// `s` without its longest prefix whose characters all satisfy `pred`.
pub open spec fn drop_while(s: Seq<char>, pred: spec_fn(char) -> bool) -> Seq<char>
    decreases s.len(),
{
    if s.len() > 0 && pred(s[0]) {
        drop_while(s.drop_first(), pred)
    } else {
        s
    }
}

/// `s` without its longest suffix whose characters all satisfy `pred`.
pub open spec fn drop_last_while(s: Seq<char>, pred: spec_fn(char) -> bool) -> Seq<char>
    decreases s.len(),
{
    if s.len() > 0 && pred(s.last()) {
        drop_last_while(s.drop_last(), pred)
    } else {
        s
    }
}

/// The longest prefix of `s` holding no character that satisfies `stop`
/// (the first piece that `str::split` yields for that separator).
pub open spec fn take_until(s: Seq<char>, stop: spec_fn(char) -> bool) -> Seq<char>
    decreases s.len(),
{
    if s.len() == 0 || stop(s[0]) {
        Seq::empty()
    } else {
        seq![s[0]] + take_until(s.drop_first(), stop)
    }
}

/// `str::trim`: whitespace removed from both ends.
pub open spec fn trim(s: Seq<char>) -> Seq<char> {
    drop_last_while(drop_while(s, |c: char| is_whitespace(c)), |c: char| is_whitespace(c))
}

/// `str::trim_start_matches` with a string pattern: the prefix `p` removed
/// as many times as it repeats at the start.
pub open spec fn trim_start_matches(s: Seq<char>, p: Seq<char>) -> Seq<char>
    decreases s.len(),
{
    if p.len() > 0 && starts_with(s, p) {
        trim_start_matches(s.skip(p.len() as int), p)
    } else {
        s
    }
}

/// `str::trim_end_matches` with a string pattern: the suffix `p` removed
/// as many times as it repeats at the end.
pub open spec fn trim_end_matches(s: Seq<char>, p: Seq<char>) -> Seq<char>
    decreases s.len(),
{
    if p.len() > 0 && ends_with(s, p) {
        trim_end_matches(s.take(s.len() - p.len()), p)
    } else {
        s
    }
}

/// Trimming removes exactly the leading and trailing whitespace: the input
/// is some whitespace, then the trimmed text, then some whitespace, and the
/// trimmed text neither starts nor ends with whitespace.
pub proof fn law_trim(s: Seq<char>)
    ensures
        exists|i: int|
            0 <= i <= s.len() - trim(s).len() && #[trigger] s.subrange(i, i + trim(s).len())
                == trim(s) && (forall|j: int| 0 <= j < i ==> is_whitespace(#[trigger] s[j])) && (forall|
                j: int,
            |
                i + trim(s).len() <= j < s.len() ==> is_whitespace(#[trigger] s[j])),
        trim(s).len() > 0 ==> !is_whitespace(trim(s)[0]) && !is_whitespace(trim(s).last()),
{
    let ws = |c: char| is_whitespace(c);
    let i = lemma_drop_while_shape(s, ws);
    let d = drop_while(s, ws);
    lemma_drop_last_while_shape(d, ws);
    let t = trim(s);
    assert(s.subrange(i, i + t.len()) =~= t) by {
        assert forall|j: int| 0 <= j < t.len() implies s.subrange(i, i + t.len())[j] == t[j] by {
            assert(t[j] == d.take(t.len() as int)[j]);
            assert(d[j] == s[i + j]);
        }
    }
    assert forall|j: int| i + t.len() <= j < s.len() implies is_whitespace(#[trigger] s[j]) by {
        assert(d[j - i] == s[j]);
        assert(ws(d[j - i]));
    }
    if t.len() > 0 {
        assert(t[0] == d[0]);
    }
}

/// `drop_while` removes a prefix of characters that all satisfy `pred` and
/// stops at one that does not.
pub proof fn lemma_drop_while_shape(s: Seq<char>, pred: spec_fn(char) -> bool) -> (i: int)
    ensures
        0 <= i <= s.len(),
        drop_while(s, pred) == s.skip(i),
        forall|j: int| 0 <= j < i ==> pred(#[trigger] s[j]),
        i == s.len() || !pred(s[i]),
    decreases s.len(),
{
    if s.len() > 0 && pred(s[0]) {
        let k = lemma_drop_while_shape(s.drop_first(), pred);
        assert(s.drop_first().skip(k) =~= s.skip(k + 1));
        assert forall|j: int| 0 <= j < k + 1 implies pred(#[trigger] s[j]) by {
            if j > 0 {
                assert(s[j] == s.drop_first()[j - 1]);
            }
        }
        if k + 1 < s.len() {
            assert(s[k + 1] == s.drop_first()[k]);
        }
        k + 1
    } else {
        assert(s.skip(0) =~= s);
        0
    }
}

pub proof fn lemma_drop_while_at(s: Seq<char>, pred: spec_fn(char) -> bool, i: int)
    requires
        0 <= i <= s.len(),
        forall|j: int| 0 <= j < i ==> pred(#[trigger] s[j]),
        i == s.len() || !pred(s[i]),
    ensures
        drop_while(s, pred) == s.skip(i),
    decreases i,
{
    if i == 0 {
        assert(s.skip(0) =~= s);
    } else {
        assert(pred(s[0]));
        let t = s.drop_first();
        assert forall|j: int| 0 <= j < i - 1 implies pred(#[trigger] t[j]) by {
            assert(t[j] == s[j + 1]);
        }
        lemma_drop_while_at(t, pred, i - 1);
        assert(t.skip(i - 1) =~= s.skip(i));
    }
}

pub proof fn lemma_drop_last_while_at(s: Seq<char>, pred: spec_fn(char) -> bool, k: int)
    requires
        0 <= k <= s.len(),
        forall|j: int| k <= j < s.len() ==> pred(#[trigger] s[j]),
        k == 0 || !pred(s[k - 1]),
    ensures
        drop_last_while(s, pred) == s.take(k),
    decreases s.len() - k,
{
    if k == s.len() {
        assert(s.take(k) =~= s);
    } else {
        assert(pred(s.last()));
        let t = s.drop_last();
        assert forall|j: int| k <= j < t.len() implies pred(#[trigger] t[j]) by {
            assert(t[j] == s[j]);
        }
        lemma_drop_last_while_at(t, pred, k);
        assert(t.take(k) =~= s.take(k));
    }
}

pub proof fn lemma_take_until_at(s: Seq<char>, stop: spec_fn(char) -> bool, i: int)
    requires
        0 <= i <= s.len(),
        forall|j: int| 0 <= j < i ==> !stop(#[trigger] s[j]),
        i == s.len() || stop(s[i]),
    ensures
        take_until(s, stop) == s.take(i),
    decreases i,
{
    if i == 0 {
        assert(s.take(0) =~= Seq::<char>::empty());
    } else {
        let t = s.drop_first();
        assert(!stop(s[0]));
        assert forall|j: int| 0 <= j < i - 1 implies !stop(#[trigger] t[j]) by {
            assert(t[j] == s[j + 1]);
        }
        lemma_take_until_at(t, stop, i - 1);
        assert(seq![s[0]] + t.take(i - 1) =~= s.take(i));
    }
}

/// `drop_last_while` keeps a prefix of `s` whose last character fails `pred`
/// and removes only characters that satisfy it.
pub proof fn lemma_drop_last_while_shape(s: Seq<char>, pred: spec_fn(char) -> bool)
    ensures
        drop_last_while(s, pred).len() <= s.len(),
        drop_last_while(s, pred) == s.take(drop_last_while(s, pred).len() as int),
        forall|j: int|
            drop_last_while(s, pred).len() <= j < s.len() ==> pred(#[trigger] s[j]),
        drop_last_while(s, pred).len() == 0 || !pred(drop_last_while(s, pred).last()),
    decreases s.len(),
{
    if s.len() > 0 && pred(s.last()) {
        let t = s.drop_last();
        lemma_drop_last_while_shape(t, pred);
        let d = drop_last_while(t, pred);
        assert(t.take(d.len() as int) =~= s.take(d.len() as int));
        assert forall|j: int| d.len() <= j < s.len() implies pred(#[trigger] s[j]) by {
            if j < t.len() {
                assert(s[j] == t[j]);
            }
        }
    } else {
        assert(s.take(s.len() as int) =~= s);
    }
}

/// `take_until` keeps all of `s` when no character of it stops.
pub proof fn lemma_take_until_none(s: Seq<char>, stop: spec_fn(char) -> bool)
    requires
        forall|j: int| 0 <= j < s.len() ==> !stop(#[trigger] s[j]),
    ensures
        take_until(s, stop) == s,
{
    lemma_take_until_at(s, stop, s.len() as int);
    assert(s.take(s.len() as int) =~= s);
}

/// Calls `String::push`; the contract claims, as std documents, that the
/// string afterwards is the old one with `c` appended.
#[verifier::external_body]
pub(crate) fn push_char(s: &mut String, c: char)
    ensures
        final(s)@ == old(s)@.push(c),
{
    s.push(c);
}

/// Calls `String::push_str`; the contract claims, as std documents, that
/// the string afterwards is the old one followed by `t`.
#[verifier::external_body]
pub(crate) fn push_str(s: &mut String, t: &str)
    ensures
        final(s)@ == old(s)@ + t@,
{
    s.push_str(t);
}

/// The decimal digit for `d < 10`.
pub open spec fn digit_char(d: nat) -> char {
    if d == 0 { '0' } else if d == 1 { '1' } else if d == 2 { '2' } else if d == 3 { '3' }
    else if d == 4 { '4' } else if d == 5 { '5' } else if d == 6 { '6' } else if d == 7 { '7' }
    else if d == 8 { '8' } else { '9' }
}

/// The decimal notation of `n`, without leading zeros.
pub open spec fn decimal(n: nat) -> Seq<char>
    decreases n,
{
    if n < 10 {
        seq![digit_char(n)]
    } else {
        decimal(n / 10).push(digit_char(n % 10))
    }
}

/// The number a string of decimal digits denotes.
pub open spec fn decimal_value(s: Seq<char>) -> int
    decreases s.len(),
{
    if s.len() == 0 {
        0
    } else {
        decimal_value(s.drop_last()) * 10 + digit_value(s.last())
    }
}

/// The value of a decimal digit character.
pub open spec fn digit_value(c: char) -> int {
    (c as u32) - ('0' as u32)
}

/// The decimal notation of `n` consists of digits, starts with `0` only
/// for `n == 0`, and denotes `n`.
pub proof fn law_decimal(n: nat)
    ensures
        decimal(n).len() > 0,
        forall|i: int| 0 <= i < decimal(n).len() ==> '0' <= #[trigger] decimal(n)[i] <= '9',
        decimal(n)[0] == '0' ==> n == 0,
        decimal_value(decimal(n)) == n,
    decreases n,
{
    if n >= 10 {
        law_decimal(n / 10);
        let d = decimal(n);
        assert(d.drop_last() =~= decimal(n / 10));
        assert(digit_value(digit_char(n % 10)) == n % 10);
        assert(n == (n / 10) * 10 + n % 10) by (nonlinear_arith);
        assert forall|i: int| 0 <= i < d.len() implies '0' <= #[trigger] d[i] <= '9' by {
            if i < d.len() - 1 {
                assert(d[i] == decimal(n / 10)[i]);
            }
        }
        assert(d[0] == decimal(n / 10)[0]);
        assert(decimal_value(d) == decimal_value(decimal(n / 10)) * 10 + digit_value(
            digit_char(n % 10),
        ));
    } else {
        assert(decimal(n).drop_last() =~= Seq::<char>::empty());
        assert(digit_value(digit_char(n)) == n);
        assert(decimal_value(decimal(n)) == decimal_value(Seq::<char>::empty()) * 10 + digit_value(
            digit_char(n),
        ));
    }
}

/// Appends the decimal notation of `n` to `s`.
pub fn push_decimal(s: &mut String, n: usize)
    ensures
        final(s)@ == old(s)@ + decimal(n as nat),
    decreases n,
{
    if n >= 10 {
        push_decimal(s, n / 10);
    }
    let d = n % 10;
    let c = if d == 0 { '0' } else if d == 1 { '1' } else if d == 2 { '2' } else if d == 3 { '3' }
    else if d == 4 { '4' } else if d == 5 { '5' } else if d == 6 { '6' } else if d == 7 { '7' }
    else if d == 8 { '8' } else { '9' };
    push_char(s, c);
    proof {
        if n >= 10 {
            assert(old(s)@ + decimal(n as nat) =~= old(s)@ + decimal((n / 10) as nat) + seq![c]);
        } else {
            assert(old(s)@ + decimal(n as nat) =~= old(s)@.push(c));
        }
    }
}

/// An owned copy of `s`.
pub fn owned(s: &str) -> (r: String)
    ensures
        r@ == s@,
{
    s.to_owned()
}

/// Collects the characters of `s` into a vector.
pub fn chars_of(s: &str) -> (v: Vec<char>)
    ensures
        v@ == s@,
{
    let mut v: Vec<char> = Vec::new();
    for c in it: s.chars()
        invariant
            v@ == it.seq().take(it.index() as int),
            it.seq() == s@,
    {
        v.push(c);
    }
    v
}

/// Builds a `String` holding exactly the characters of `v[from..to]`.
pub fn string_from_chars(v: &Vec<char>, from: usize, to: usize) -> (s: String)
    requires
        from <= to <= v.len(),
    ensures
        s@ == v@.subrange(from as int, to as int),
{
    let mut s = String::new();
    let mut i = from;
    while i < to
        invariant
            from <= i <= to <= v.len(),
            s@ == v@.subrange(from as int, i as int),
        decreases to - i,
    {
        push_char(&mut s, v[i]);
        i += 1;
    }
    s
}

/// Executable `is_whitespace`.
pub fn is_whitespace_char(c: char) -> (b: bool)
    ensures
        b == is_whitespace(c),
{
    ('\u{9}' <= c && c <= '\u{d}') || c == ' ' || c == '\u{85}' || c == '\u{a0}' || c
        == '\u{1680}' || ('\u{2000}' <= c && c <= '\u{200a}') || c == '\u{2028}' || c
        == '\u{2029}' || c == '\u{202f}' || c == '\u{205f}' || c == '\u{3000}'
}

/// Whether `v[from..to]` begins with `p`.
pub fn has_prefix_in(v: &Vec<char>, from: usize, to: usize, p: &Vec<char>) -> (b: bool)
    requires
        from <= to <= v.len(),
    ensures
        b == starts_with(v@.subrange(from as int, to as int), p@),
{
    let ghost s = v@.subrange(from as int, to as int);
    if p.len() > to - from {
        return false;
    }
    let mut i: usize = 0;
    while i < p.len()
        invariant
            p.len() <= to - from,
            from <= to <= v.len(),
            s == v@.subrange(from as int, to as int),
            0 <= i <= p.len(),
            forall|j: int| 0 <= j < i ==> s[j] == p@[j],
        decreases p.len() - i,
    {
        if v[from + i] != p[i] {
            assert(s.take(p.len() as int)[i as int] != p@[i as int]);
            return false;
        }
        i += 1;
    }
    assert(s.take(p.len() as int) =~= p@);
    true
}

/// Whether `v[from..to]` ends with `p`.
pub fn has_suffix_in(v: &Vec<char>, from: usize, to: usize, p: &Vec<char>) -> (b: bool)
    requires
        from <= to <= v.len(),
    ensures
        b == ends_with(v@.subrange(from as int, to as int), p@),
{
    let ghost s = v@.subrange(from as int, to as int);
    if p.len() > to - from {
        return false;
    }
    let base = to - p.len();
    let mut i: usize = 0;
    while i < p.len()
        invariant
            p.len() <= to - from,
            from <= to <= v.len(),
            base == to - p.len(),
            s == v@.subrange(from as int, to as int),
            0 <= i <= p.len(),
            forall|j: int| 0 <= j < i ==> s[s.len() - p.len() + j] == p@[j],
        decreases p.len() - i,
    {
        if v[base + i] != p[i] {
            assert(s.skip(s.len() - p.len())[i as int] != p@[i as int]);
            return false;
        }
        i += 1;
    }
    assert(s.skip(s.len() - p.len()) =~= p@);
    true
}

} // verus!
