//! Character-level helpers on string slices.

use vstd::prelude::*;
use vstd::string::*;

verus! {

/// The views of a sequence of texts, in order.
pub open spec fn texts_view(texts: Seq<String>) -> Seq<Seq<char>> {
    Seq::new(texts.len(), |i: int| texts[i]@)
}

/// `s` ends with `suffix`.
pub open spec fn is_suffix(s: Seq<char>, suffix: Seq<char>) -> bool {
    suffix.len() <= s.len() && s.subrange(s.len() - suffix.len(), s.len() as int) == suffix
}

/// `s` starts with `prefix`.
pub open spec fn is_prefix(s: Seq<char>, prefix: Seq<char>) -> bool {
    prefix.len() <= s.len() && s.subrange(0, prefix.len() as int) == prefix
}

/// Tells whether `s` ends with `suffix`, comparing character by character.
pub fn ends_with(s: &str, suffix: &str) -> (found: bool)
    ensures
        found == is_suffix(s@, suffix@),
{
    let n: usize = s.unicode_len();
    let m: usize = suffix.unicode_len();
    if m > n {
        return false;
    }
    let base: usize = n - m;
    let mut i: usize = 0;
    while i < m
        invariant
            n == s@.len(),
            m == suffix@.len(),
            m <= n,
            base == n - m,
            i <= m,
            forall|k: int| 0 <= k < i ==> s@[base + k] == suffix@[k],
        decreases m - i,
    {
        if s.get_char(base + i) != suffix.get_char(i) {
            assert(s@.subrange(n - m, n as int)[i as int] == s@[base + i]);
            return false;
        }
        i += 1;
    }
    assert(s@.subrange(n - m, n as int) =~= suffix@);
    true
}

/// Tells whether `pattern` stands in `s` at the position `at`.
pub fn matches_at(s: &str, at: usize, pattern: &str) -> (found: bool)
    requires
        at <= s@.len(),
    ensures
        found == is_prefix(s@.skip(at as int), pattern@),
{
    let n: usize = s.unicode_len();
    let m: usize = pattern.unicode_len();
    if m > n - at {
        return false;
    }
    let ghost rest = s@.skip(at as int);
    let mut i: usize = 0;
    while i < m
        invariant
            n == s@.len(),
            m == pattern@.len(),
            at <= n,
            m <= n - at,
            i <= m,
            rest == s@.skip(at as int),
            forall|k: int| 0 <= k < i ==> rest[k] == pattern@[k],
        decreases m - i,
    {
        if s.get_char(at + i) != pattern.get_char(i) {
            assert(rest.subrange(0, m as int)[i as int] == rest[i as int]);
            return false;
        }
        i += 1;
    }
    assert(rest.subrange(0, m as int) =~= pattern@);
    true
}

/// White space, as Unicode defines the property `White_Space`.
pub open spec fn is_white_space(c: char) -> bool {
    let code = c as u32;
    ||| 0x09 <= code <= 0x0d
    ||| code == 0x20
    ||| code == 0x85
    ||| code == 0xa0
    ||| code == 0x1680
    ||| 0x2000 <= code <= 0x200a
    ||| code == 0x2028
    ||| code == 0x2029
    ||| code == 0x202f
    ||| code == 0x205f
    ||| code == 0x3000
}

/// Tells whether `c` is white space.
pub fn white_space(c: char) -> (blank: bool)
    ensures
        blank == is_white_space(c),
{
    let code: u32 = c as u32;
    (0x09 <= code && code <= 0x0d) || code == 0x20 || code == 0x85 || code == 0xa0 || code
        == 0x1680 || (0x2000 <= code && code <= 0x200a) || code == 0x2028 || code == 0x2029
        || code == 0x202f || code == 0x205f || code == 0x3000
}

/// `s` without the white space it begins with.
pub open spec fn trim_start(s: Seq<char>) -> Seq<char>
    decreases s.len(),
{
    if s.len() > 0 && is_white_space(s.first()) {
        trim_start(s.drop_first())
    } else {
        s
    }
}

/// `s` without the white space it ends with.
pub open spec fn trim_end(s: Seq<char>) -> Seq<char>
    decreases s.len(),
{
    if s.len() > 0 && is_white_space(s.last()) {
        trim_end(s.drop_last())
    } else {
        s
    }
}

/// `s` without the white space around it.
pub open spec fn trimmed(s: Seq<char>) -> Seq<char> {
    trim_end(trim_start(s))
}

/// Removes the white space around `s`.
pub fn trim(s: &str) -> (inner: String)
    ensures
        inner@ == trimmed(s@),
{
    let n: usize = s.unicode_len();
    let mut from: usize = 0;
    proof {
        assert(s@.skip(0) =~= s@);
    }
    while from < n && white_space(s.get_char(from))
        invariant
            n == s@.len(),
            from <= n,
            trim_start(s@) == trim_start(s@.skip(from as int)),
        decreases n - from,
    {
        proof {
            assert(s@.skip(from as int).first() == s@[from as int]);
            assert(s@.skip(from as int).drop_first() =~= s@.skip(from + 1));
        }
        from += 1;
    }
    let ghost rest = s@.skip(from as int);
    proof {
        if from < n {
            assert(rest.first() == s@[from as int]);
        }
        assert(trim_start(s@) == rest);
        assert(s@.subrange(from as int, n as int) =~= rest);
    }
    let mut to: usize = n;
    while to > from && white_space(s.get_char(to - 1))
        invariant
            n == s@.len(),
            from <= to <= n,
            trim_end(rest) == trim_end(s@.subrange(from as int, to as int)),
        decreases to,
    {
        proof {
            let part = s@.subrange(from as int, to as int);
            assert(part.last() == s@[to - 1]);
            assert(part.drop_last() =~= s@.subrange(from as int, to - 1));
        }
        to -= 1;
    }
    proof {
        let part = s@.subrange(from as int, to as int);
        if to > from {
            assert(part.last() == s@[to - 1]);
        }
        assert(trim_end(rest) == part);
    }
    String::from_str(s.substring_char(from, to))
}

/// `s` without the occurrences of `pattern`, found from left to right; an
/// occurrence that begins inside an earlier one does not count.
pub open spec fn without(s: Seq<char>, pattern: Seq<char>) -> Seq<char>
    decreases s.len(),
{
    if s.len() == 0 {
        s
    } else if pattern.len() > 0 && is_prefix(s, pattern) {
        without(s.skip(pattern.len() as int), pattern)
    } else {
        seq![s[0]] + without(s.skip(1), pattern)
    }
}

/// Removes every occurrence of `pattern` from `s`.
pub fn remove_all(s: &str, pattern: &str) -> (rest: String)
    ensures
        rest@ == without(s@, pattern@),
{
    let n: usize = s.unicode_len();
    let m: usize = pattern.unicode_len();
    let mut rest = String::new();
    let mut i: usize = 0;
    proof {
        assert(s@.skip(0) =~= s@);
        assert(rest@ + without(s@, pattern@) =~= without(s@, pattern@));
    }
    while i < n
        invariant
            n == s@.len(),
            m == pattern@.len(),
            i <= n,
            rest@ + without(s@.skip(i as int), pattern@) == without(s@, pattern@),
        decreases n - i,
    {
        let ghost tail = s@.skip(i as int);
        let ghost before = rest@;
        if m > 0 && matches_at(s, i, pattern) {
            proof {
                assert(tail.skip(m as int) =~= s@.skip(i + m));
            }
            i += m;
        } else {
            let one = s.substring_char(i, i + 1);
            rest.append(one);
            proof {
                assert(one@ =~= seq![tail[0]]);
                assert(tail.skip(1) =~= s@.skip(i + 1));
                assert(rest@ + without(s@.skip(i + 1), pattern@) =~= before + without(
                    tail,
                    pattern@,
                ));
            }
            i += 1;
        }
    }
    proof {
        assert(rest@ + without(s@.skip(i as int), pattern@) =~= rest@);
    }
    rest
}

} // verus!
