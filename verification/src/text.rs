//! Byte-level text utilities: ASCII whitespace trimming and word extraction.
//!
//! These operate on raw bytes so that the rest of the library can state exact
//! contracts about command output and header values without committing to a
//! particular text encoding.

use vstd::prelude::*;

verus! {

/// The ASCII whitespace bytes: space, tab, line feed, vertical tab, form
/// feed, carriage return.
pub open spec fn is_ascii_ws(b: u8) -> bool {
    b == 32 || (9 <= b && b <= 13)
}

/// `s` with its longest all-whitespace prefix removed.
pub open spec fn trim_front(s: Seq<u8>) -> Seq<u8>
    decreases s.len(),
{
    if s.len() > 0 && is_ascii_ws(s[0]) {
        trim_front(s.drop_first())
    } else {
        s
    }
}

/// `s` with its longest all-whitespace suffix removed.
pub open spec fn trim_back(s: Seq<u8>) -> Seq<u8>
    decreases s.len(),
{
    if s.len() > 0 && is_ascii_ws(s.last()) {
        trim_back(s.drop_last())
    } else {
        s
    }
}

/// `s` with leading and trailing ASCII whitespace removed.
pub open spec fn spec_trim(s: Seq<u8>) -> Seq<u8> {
    trim_back(trim_front(s))
}

/// `s` with its longest leading run of non-whitespace bytes removed.
pub open spec fn skip_word(s: Seq<u8>) -> Seq<u8>
    decreases s.len(),
{
    if s.len() > 0 && !is_ascii_ws(s[0]) {
        skip_word(s.drop_first())
    } else {
        s
    }
}

/// The longest leading run of non-whitespace bytes of `s`.
pub open spec fn take_word(s: Seq<u8>) -> Seq<u8>
    decreases s.len(),
{
    if s.len() > 0 && !is_ascii_ws(s[0]) {
        seq![s[0]] + take_word(s.drop_first())
    } else {
        Seq::empty()
    }
}

/// The second whitespace-separated word of `s`, if there are at least two.
pub open spec fn spec_second_word(s: Seq<u8>) -> Option<Seq<u8>> {
    let rest = trim_front(skip_word(trim_front(s)));
    if rest.len() == 0 {
        None
    } else {
        Some(take_word(rest))
    }
}

proof fn lemma_trim_front_is_skip(s: Seq<u8>, i: int)
    requires
        0 <= i <= s.len(),
        forall|k: int| 0 <= k < i ==> is_ascii_ws(s[k]),
        i == s.len() || !is_ascii_ws(s[i]),
    ensures
        trim_front(s) == s.skip(i),
    decreases i,
{
    if i == 0 {
        assert(s.skip(0) =~= s);
    } else {
        let t = s.drop_first();
        assert(forall|k: int| 0 <= k < i - 1 ==> is_ascii_ws(t[k]));
        lemma_trim_front_is_skip(t, i - 1);
        assert(t.skip(i - 1) =~= s.skip(i));
    }
}

proof fn lemma_trim_back_is_take(s: Seq<u8>, j: int)
    requires
        0 <= j <= s.len(),
        forall|k: int| j <= k < s.len() ==> is_ascii_ws(s[k]),
        j == 0 || !is_ascii_ws(s[j - 1]),
    ensures
        trim_back(s) == s.take(j),
    decreases s.len(),
{
    if j == s.len() {
        if s.len() == 0 || !is_ascii_ws(s.last()) {
            assert(s.take(j) =~= s);
        } else {
            assert(!is_ascii_ws(s[j - 1]));
            assert(false);
        }
    } else {
        let t = s.drop_last();
        assert(forall|k: int| j <= k < t.len() ==> is_ascii_ws(t[k]));
        lemma_trim_back_is_take(t, j);
        assert(t.take(j) =~= s.take(j));
    }
}

proof fn lemma_skip_word_is_skip(s: Seq<u8>, i: int)
    requires
        0 <= i <= s.len(),
        forall|k: int| 0 <= k < i ==> !is_ascii_ws(s[k]),
        i == s.len() || is_ascii_ws(s[i]),
    ensures
        skip_word(s) == s.skip(i),
    decreases i,
{
    if i == 0 {
        assert(s.skip(0) =~= s);
    } else {
        let t = s.drop_first();
        assert(forall|k: int| 0 <= k < i - 1 ==> !is_ascii_ws(t[k]));
        lemma_skip_word_is_skip(t, i - 1);
        assert(t.skip(i - 1) =~= s.skip(i));
    }
}

proof fn lemma_take_word_is_take(s: Seq<u8>, i: int)
    requires
        0 <= i <= s.len(),
        forall|k: int| 0 <= k < i ==> !is_ascii_ws(s[k]),
        i == s.len() || is_ascii_ws(s[i]),
    ensures
        take_word(s) == s.take(i),
    decreases i,
{
    if i == 0 {
        assert(s.take(0) =~= Seq::<u8>::empty());
    } else {
        let t = s.drop_first();
        assert(forall|k: int| 0 <= k < i - 1 ==> !is_ascii_ws(t[k]));
        lemma_take_word_is_take(t, i - 1);
        assert(seq![s[0]] + t.take(i - 1) =~= s.take(i));
    }
}

fn ws(b: u8) -> (r: bool)
    ensures
        r == is_ascii_ws(b),
{
    b == 32 || (9 <= b && b <= 13)
}

/// Copy of `s` with leading and trailing ASCII whitespace removed.
pub fn trim_ascii(s: &[u8]) -> (r: Vec<u8>)
    ensures
        r@ == spec_trim(s@),
{
    let n = s.len();
    let mut start: usize = 0;
    while start < n && ws(s[start])
        invariant
            n == s@.len(),
            0 <= start <= n,
            forall|k: int| 0 <= k < start ==> is_ascii_ws(s@[k]),
        decreases n - start,
    {
        start = start + 1;
    }
    let mut end: usize = n;
    while end > start && ws(s[end - 1])
        invariant
            n == s@.len(),
            start <= end <= n,
            forall|k: int| end <= k < n ==> is_ascii_ws(s@[k]),
            forall|k: int| 0 <= k < start ==> is_ascii_ws(s@[k]),
            start == n || !is_ascii_ws(s@[start as int]),
        decreases end,
    {
        end = end - 1;
    }
    proof {
        lemma_trim_front_is_skip(s@, start as int);
        let t = s@.skip(start as int);
        assert(forall|k: int| (end - start) <= k < t.len() ==> is_ascii_ws(t[k]));
        if end > start {
            assert(!is_ascii_ws(t[end - start - 1]));
        }
        lemma_trim_back_is_take(t, end - start);
    }
    let mut r: Vec<u8> = Vec::new();
    let mut i: usize = start;
    while i < end
        invariant
            n == s@.len(),
            start <= i <= end <= n,
            r@ == s@.subrange(start as int, i as int),
        decreases end - i,
    {
        r.push(s[i]);
        proof {
            assert(s@.subrange(start as int, i as int).push(s@[i as int]) =~= s@.subrange(
                start as int,
                i + 1,
            ));
        }
        i = i + 1;
    }
    proof {
        assert(s@.subrange(start as int, end as int) =~= s@.skip(start as int).take(
            end - start as int,
        ));
    }
    r
}

/// The second whitespace-separated word of `s`, if there are at least two.
pub fn second_word(s: &[u8]) -> (r: Option<Vec<u8>>)
    ensures
        r matches Some(w) ==> spec_second_word(s@) == Some(w@),
        r is None ==> spec_second_word(s@) is None,
{
    let n = s.len();
    let mut i: usize = 0;
    while i < n && ws(s[i])
        invariant
            n == s@.len(),
            0 <= i <= n,
            forall|k: int| 0 <= k < i ==> is_ascii_ws(s@[k]),
        decreases n - i,
    {
        i = i + 1;
    }
    proof {
        lemma_trim_front_is_skip(s@, i as int);
    }
    let first_start = i;
    while i < n && !ws(s[i])
        invariant
            n == s@.len(),
            first_start <= i <= n,
            forall|k: int| first_start <= k < i ==> !is_ascii_ws(s@[k]),
        decreases n - i,
    {
        i = i + 1;
    }
    proof {
        let t = s@.skip(first_start as int);
        assert(forall|k: int| 0 <= k < (i - first_start) ==> !is_ascii_ws(t[k]));
        lemma_skip_word_is_skip(t, i - first_start);
        assert(t.skip(i - first_start) =~= s@.skip(i as int));
    }
    let after_first = i;
    while i < n && ws(s[i])
        invariant
            n == s@.len(),
            after_first <= i <= n,
            forall|k: int| after_first <= k < i ==> is_ascii_ws(s@[k]),
        decreases n - i,
    {
        i = i + 1;
    }
    proof {
        let t = s@.skip(after_first as int);
        assert(forall|k: int| 0 <= k < (i - after_first) ==> is_ascii_ws(t[k]));
        lemma_trim_front_is_skip(t, i - after_first);
        assert(t.skip(i - after_first) =~= s@.skip(i as int));
    }
    let second_start = i;
    proof {
        assert(trim_front(skip_word(trim_front(s@))) == s@.skip(second_start as int));
    }
    if second_start == n {
        proof {
            assert(s@.skip(second_start as int) =~= Seq::<u8>::empty());
        }
        return None;
    }
    while i < n && !ws(s[i])
        invariant
            n == s@.len(),
            second_start <= i <= n,
            forall|k: int| second_start <= k < i ==> !is_ascii_ws(s@[k]),
        decreases n - i,
    {
        i = i + 1;
    }
    proof {
        let t = s@.skip(second_start as int);
        assert(forall|k: int| 0 <= k < (i - second_start) ==> !is_ascii_ws(t[k]));
        lemma_take_word_is_take(t, i - second_start);
    }
    let mut w: Vec<u8> = Vec::new();
    let mut j: usize = second_start;
    while j < i
        invariant
            n == s@.len(),
            second_start <= j <= i <= n,
            w@ == s@.subrange(second_start as int, j as int),
        decreases i - j,
    {
        w.push(s[j]);
        proof {
            assert(s@.subrange(second_start as int, j as int).push(s@[j as int]) =~= s@.subrange(
                second_start as int,
                j + 1,
            ));
        }
        j = j + 1;
    }
    proof {
        assert(s@.subrange(second_start as int, i as int) =~= s@.skip(second_start as int).take(
            i - second_start as int,
        ));
    }
    Some(w)
}

} // verus!
