//! Character-level helpers over `str`, with their specifications.
use vstd::prelude::*;

verus! {

/// `i` is the first position of `c` in `s`.
pub open spec fn is_first_index(s: Seq<char>, c: char, i: int) -> bool {
    &&& 0 <= i < s.len()
    &&& s[i] == c
    &&& forall|j: int| 0 <= j < i ==> s[j] != c
}

/// Position of the first occurrence of `c` in `s`, if any.
pub open spec fn first_index(s: Seq<char>, c: char) -> Option<int> {
    if exists|i: int| is_first_index(s, c, i) {
        Some(choose|i: int| is_first_index(s, c, i))
    } else {
        None
    }
}

pub proof fn lemma_first_index_unique(s: Seq<char>, c: char, i: int)
    requires
        is_first_index(s, c, i),
    ensures
        first_index(s, c) == Some(i),
{
    let k = choose|k: int| is_first_index(s, c, k);
    assert(is_first_index(s, c, k));
    if k < i {
        assert(s[k] != c);
    } else if i < k {
        assert(s[i] != c);
    }
}

pub proof fn lemma_first_index_none(s: Seq<char>, c: char)
    requires
        forall|j: int| 0 <= j < s.len() ==> s[j] != c,
    ensures
        first_index(s, c) is None,
{
}

/// The characters of `s`, one by one.
pub fn chars_of(s: &str) -> (r: Vec<char>)
    ensures
        r@ == s@,
{
    let n = s.unicode_len();
    let mut r: Vec<char> = Vec::new();
    let mut i: usize = 0;
    while i < n
        invariant
            n == s@.len(),
            i <= n,
            r@ == s@.take(i as int),
        decreases n - i,
    {
        let c = s.get_char(i);
        r.push(c);
        assert(s@.take(i as int).push(c) =~= s@.take(i + 1));
        i = i + 1;
    }
    assert(s@.take(n as int) =~= s@);
    r
}

/// First position of `c` inside `chars[lo..hi]`, counted from the start of `chars`.
pub fn find_char(chars: &Vec<char>, lo: usize, hi: usize, c: char) -> (r: Option<usize>)
    requires
        lo <= hi <= chars@.len(),
    ensures
        match first_index(chars@.subrange(lo as int, hi as int), c) {
            Some(i) => r == Some((i + lo) as usize),
            None => r is None,
        },
        r matches Some(k) ==> lo <= k < hi,
{
    let ghost s = chars@.subrange(lo as int, hi as int);
    let mut k = lo;
    while k < hi
        invariant
            lo <= k <= hi <= chars@.len(),
            s == chars@.subrange(lo as int, hi as int),
            forall|j: int| 0 <= j < k - lo ==> s[j] != c,
        decreases hi - k,
    {
        if chars[k] == c {
            proof {
                assert(is_first_index(s, c, k - lo));
                lemma_first_index_unique(s, c, k - lo);
            }
            return Some(k);
        }
        k = k + 1;
    }
    proof {
        lemma_first_index_none(s, c);
    }
    None
}


/// The pieces of `s` between occurrences of `sep`, as `str::split` yields them.
pub open spec fn split_on(s: Seq<char>, sep: char) -> Seq<Seq<char>>
    decreases s.len(),
{
    match first_index(s, sep) {
        Some(i) => if 0 <= i < s.len() {
            seq![s.take(i)] + split_on(s.skip(i + 1), sep)
        } else {
            seq![s]
        },
        None => seq![s],
    }
}

pub open spec fn is_digit(c: char) -> bool {
    '0' <= c && c <= '9'
}

pub open spec fn digit_value(c: char) -> int {
    (c as int) - ('0' as int)
}

/// The number that the decimal digits `ds` write.
pub open spec fn decimal_value(ds: Seq<char>) -> int
    decreases ds.len(),
{
    if ds.len() == 0 {
        0
    } else {
        decimal_value(ds.drop_last()) * 10 + digit_value(ds.last())
    }
}

pub open spec fn all_digits(ds: Seq<char>) -> bool {
    forall|i: int| 0 <= i < ds.len() ==> is_digit(#[trigger] ds[i])
}

/// What `str::parse::<u64>` gives: an optional `+`, then one or more decimal
/// digits whose value fits in a `u64`.
pub open spec fn parse_u64_spec(s: Seq<char>) -> Option<u64> {
    let ds = if s.len() > 0 && s[0] == '+' { s.skip(1) } else { s };
    if ds.len() > 0 && all_digits(ds) && decimal_value(ds) <= u64::MAX {
        Some(decimal_value(ds) as u64)
    } else {
        None
    }
}

proof fn lemma_decimal_value_nonneg(ds: Seq<char>)
    requires
        all_digits(ds),
    ensures
        decimal_value(ds) >= 0,
    decreases ds.len(),
{
    if ds.len() > 0 {
        assert(is_digit(ds[ds.len() - 1]));
        lemma_decimal_value_nonneg(ds.drop_last());
    }
}

proof fn lemma_decimal_value_prefix(ds: Seq<char>, k: int)
    requires
        all_digits(ds),
        0 <= k <= ds.len(),
    ensures
        decimal_value(ds) >= decimal_value(ds.take(k)),
    decreases ds.len(),
{
    if k < ds.len() {
        assert(is_digit(ds[ds.len() - 1]));
        assert(ds.drop_last().take(k) =~= ds.take(k));
        lemma_decimal_value_prefix(ds.drop_last(), k);
        lemma_decimal_value_nonneg(ds.drop_last());
    } else {
        assert(ds.take(k) =~= ds);
    }
}

/// Decimal parsing of an unsigned 64-bit number, as `str::parse::<u64>` does it.
pub fn parse_u64(s: &str) -> (r: Option<u64>)
    ensures
        r == parse_u64_spec(s@),
{
    let chars = chars_of(s);
    let n = chars.len();
    let start: usize = if n > 0 && chars[0] == '+' { 1 } else { 0 };
    let ghost ds = if s@.len() > 0 && s@[0] == '+' { s@.skip(1) } else { s@ };
    assert(ds =~= chars@.subrange(start as int, n as int));
    if start == n {
        return None;
    }
    let mut acc: u64 = 0;
    let mut k: usize = start;
    while k < n
        invariant
            start <= k <= n,
            n == chars@.len(),
            chars@ == s@,
            ds == (if s@.len() > 0 && s@[0] == '+' { s@.skip(1) } else { s@ }),
            ds =~= chars@.subrange(start as int, n as int),
            all_digits(ds.take(k - start)),
            acc as int == decimal_value(ds.take(k - start)),
        decreases n - k,
    {
        let c = chars[k];
        let ghost pre = ds.take(k - start);
        assert(ds.take(k + 1 - start).drop_last() =~= pre);
        assert(ds.take(k + 1 - start).last() == c);
        if !('0' <= c && c <= '9') {
            assert(!is_digit(ds[k - start]));
            return None;
        }
        let d: u64 = (c as u32 - '0' as u32) as u64;
        assert(d as int == digit_value(c));
        assert(all_digits(ds.take(k + 1 - start)));
        match acc.checked_mul(10) {
            Some(m) => match m.checked_add(d) {
                Some(v) => {
                    acc = v;
                },
                None => {
                    proof {
                        if all_digits(ds) {
                            lemma_decimal_value_prefix(ds, k + 1 - start);
                        }
                    }
                    return None;
                },
            },
            None => {
                proof {
                    lemma_decimal_value_nonneg(ds.take(k + 1 - start));
                    if all_digits(ds) {
                        lemma_decimal_value_prefix(ds, k + 1 - start);
                    }
                }
                return None;
            },
        }
        k = k + 1;
    }
    assert(ds.take(n - start) =~= ds);
    Some(acc)
}


/// The view of an optional owned string.
pub open spec fn opt_view(o: Option<String>) -> Option<Seq<char>> {
    match o {
        Some(s) => Some(s@),
        None => None,
    }
}

/// Whether `chars[lo..hi]` spells exactly `word`.
pub fn range_eq(chars: &Vec<char>, lo: usize, hi: usize, word: &Vec<char>) -> (r: bool)
    requires
        lo <= hi <= chars@.len(),
    ensures
        r == (chars@.subrange(lo as int, hi as int) == word@),
{
    if hi - lo != word.len() {
        assert(chars@.subrange(lo as int, hi as int).len() != word@.len());
        return false;
    }
    let mut k: usize = 0;
    while k < word.len()
        invariant
            lo <= hi <= chars@.len(),
            hi - lo == word@.len(),
            k <= word@.len(),
            forall|j: int| 0 <= j < k ==> chars@[lo + j] == word@[j],
        decreases word@.len() - k,
    {
        if chars[lo + k] != word[k] {
            assert(chars@.subrange(lo as int, hi as int)[k as int] != word@[k as int]);
            return false;
        }
        k = k + 1;
    }
    assert(chars@.subrange(lo as int, hi as int) =~= word@);
    true
}

/// `p` is a prefix of `s`.
pub open spec fn seq_starts_with(s: Seq<char>, p: Seq<char>) -> bool {
    p.len() <= s.len() && s.take(p.len() as int) == p
}

/// `p` occurs somewhere inside `s`.
pub open spec fn seq_contains(s: Seq<char>, p: Seq<char>) -> bool {
    exists|i: int| 0 <= i && i + p.len() <= s.len() && #[trigger] s.subrange(i, i + p.len()) == p
}

/// Whether two strings are the same text.
pub fn same_text(a: &str, b: &str) -> (r: bool)
    ensures
        r == (a@ == b@),
{
    let ac = chars_of(a);
    let bc = chars_of(b);
    let r = range_eq(&ac, 0, ac.len(), &bc);
    assert(ac@.subrange(0, ac@.len() as int) =~= a@);
    r
}

/// Any text that begins with `p` starts with `p`, whatever follows.
pub proof fn law_starts_with_prefix(p: Seq<char>, rest: Seq<char>)
    ensures
        seq_starts_with(p + rest, p),
{
    assert((p + rest).take(p.len() as int) =~= p);
}

/// Starting with `p` means being `p` followed by the rest.
pub proof fn law_starts_with_means_prefix(s: Seq<char>, p: Seq<char>)
    requires
        seq_starts_with(s, p),
    ensures
        s == p + s.skip(p.len() as int),
{
    assert(s =~= s.take(p.len() as int) + s.skip(p.len() as int));
}

/// `p` is found wherever it occurs, in a text of any length.
pub proof fn law_contains_occurrence(a: Seq<char>, p: Seq<char>, b: Seq<char>)
    ensures
        seq_contains(a + p + b, p),
{
    let s = a + p + b;
    assert(s.subrange(a.len() as int, a.len() as int + p.len()) =~= p);
}

/// Containing `p` means having an occurrence of it: some text before and
/// some text after.
pub proof fn law_contains_means_occurrence(s: Seq<char>, p: Seq<char>)
    requires
        seq_contains(s, p),
    ensures
        exists|a: Seq<char>, b: Seq<char>| s == a + p + b,
{
    let i = choose|i: int| 0 <= i && i + p.len() <= s.len() && #[trigger] s.subrange(i, i + p.len()) == p;
    let a = s.take(i);
    let b = s.skip(i + p.len());
    assert(s =~= a + p + b);
}

/// `str::starts_with` on a string pattern.
pub fn starts_with(s: &str, p: &str) -> (r: bool)
    ensures
        r == seq_starts_with(s@, p@),
{
    let cs = chars_of(s);
    let ps = chars_of(p);
    if ps.len() > cs.len() {
        return false;
    }
    let r = range_eq(&cs, 0, ps.len(), &ps);
    assert(cs@.subrange(0, ps@.len() as int) =~= s@.take(p@.len() as int));
    r
}

/// `str::contains` on a string pattern.
pub fn contains(s: &str, p: &str) -> (r: bool)
    ensures
        r == seq_contains(s@, p@),
{
    let cs = chars_of(s);
    let ps = chars_of(p);
    if ps.len() > cs.len() {
        return false;
    }
    if ps.len() == 0 {
        assert(s@.subrange(0, 0int + p@.len()) =~= p@);
        return true;
    }
    let n = cs.len();
    let last = n - ps.len();
    let mut i: usize = 0;
    while i <= last
        invariant
            n == cs@.len(),
            i <= last + 1,
            ps@.len() > 0,
            cs@ == s@,
            ps@ == p@,
            last == cs@.len() - ps@.len(),
            ps@.len() <= cs@.len(),
            forall|j: int| 0 <= j < i ==> #[trigger] s@.subrange(j, j + p@.len()) != p@,
        decreases last + 1 - i,
    {
        assert(i + ps@.len() <= cs@.len());
        let end = i + ps.len();
        if range_eq(&cs, i, end, &ps) {
            return true;
        }
        i = i + 1;
    }
    false
}

} // verus!
