//! Character-level helpers shared by the configuration grammar: a fixed
//! whitespace alphabet, trimming, and searching for a character.
//!
//! Whitespace here is deliberately the six ASCII whitespace characters
//! and nothing more: the configuration format recognizes no other, so
//! trimming is decided by this set rather than by the full Unicode
//! whitespace property.

use vstd::prelude::*;
use vstd::string::StrSliceExecFns;

verus! {

/// Whitespace as the configuration format understands it: the ASCII
/// whitespace characters.
pub open spec fn is_config_ws(c: char) -> bool {
    c == ' ' || c == '\t' || c == '\n' || c == '\r' || c == '\u{b}' || c == '\u{c}'
}

fn config_ws(c: char) -> (r: bool)
    ensures
        r == is_config_ws(c),
{
    c == ' ' || c == '\t' || c == '\n' || c == '\r' || c == '\u{b}' || c == '\u{c}'
}

/// The sequence with its leading whitespace removed.
pub open spec fn trim_left(s: Seq<char>) -> Seq<char>
    decreases s.len(),
{
    if s.len() > 0 && is_config_ws(s[0]) {
        trim_left(s.drop_first())
    } else {
        s
    }
}

/// The sequence with its trailing whitespace removed.
pub open spec fn trim_right(s: Seq<char>) -> Seq<char>
    decreases s.len(),
{
    if s.len() > 0 && is_config_ws(s.last()) {
        trim_right(s.drop_last())
    } else {
        s
    }
}

/// The sequence with whitespace removed on both sides.
pub open spec fn trimmed(s: Seq<char>) -> Seq<char> {
    trim_right(trim_left(s))
}

/// The first index at or after `i` where `c` occurs in `s`, or `s.len()`
/// if there is none.
pub open spec fn find_at(s: Seq<char>, c: char, i: int) -> int
    decreases s.len() - i,
{
    if i < 0 || i >= s.len() {
        s.len() as int
    } else if s[i] == c {
        i
    } else {
        find_at(s, c, i + 1)
    }
}

proof fn lemma_find_at(s: Seq<char>, c: char, i: int)
    requires
        0 <= i <= s.len(),
    ensures
        i <= find_at(s, c, i) <= s.len(),
        find_at(s, c, i) < s.len() ==> s[find_at(s, c, i)] == c,
        forall|k: int| i <= k < find_at(s, c, i) ==> s[k] != c,
    decreases s.len() - i,
{
    if i < s.len() && s[i] != c {
        lemma_find_at(s, c, i + 1);
    }
}

/// `find_at` finds `j` when `c` stands there and nowhere earlier.
pub proof fn lemma_find_at_is_first(s: Seq<char>, c: char, i: int, j: int)
    requires
        0 <= i <= j < s.len(),
        s[j] == c,
        forall|k: int| i <= k < j ==> s[k] != c,
    ensures
        find_at(s, c, i) == j,
{
    lemma_find_at(s, c, i);
}

/// `find_at` reports the length when `c` does not occur at or after `i`.
pub proof fn lemma_find_at_absent(s: Seq<char>, c: char, i: int)
    requires
        0 <= i <= s.len(),
        forall|k: int| i <= k < s.len() ==> s[k] != c,
    ensures
        find_at(s, c, i) == s.len(),
{
    lemma_find_at(s, c, i);
}

/// Trimming on the left keeps a suffix of the sequence.
pub proof fn lemma_trim_left_is_suffix(s: Seq<char>)
    ensures
        trim_left(s).len() <= s.len(),
        forall|k: int| 0 <= k < trim_left(s).len() ==> trim_left(s)[k] == s[k + s.len()
            - trim_left(s).len()],
    decreases s.len(),
{
    if s.len() > 0 && is_config_ws(s[0]) {
        lemma_trim_left_is_suffix(s.drop_first());
    }
}

/// Trimming on the right keeps a prefix of the sequence.
pub proof fn lemma_trim_right_is_prefix(s: Seq<char>)
    ensures
        trim_right(s).len() <= s.len(),
        forall|k: int| 0 <= k < trim_right(s).len() ==> trim_right(s)[k] == s[k],
    decreases s.len(),
{
    if s.len() > 0 && is_config_ws(s.last()) {
        let t = s.drop_last();
        lemma_trim_right_is_prefix(t);
        assert forall|k: int| 0 <= k < trim_right(s).len() implies trim_right(s)[k] == s[k] by {
            assert(trim_right(s)[k] == t[k]);
            assert(t[k] == s[k]);
        }
    }
}

/// What trimming leaves never begins with whitespace.
pub proof fn lemma_trim_left_head(s: Seq<char>)
    ensures
        trim_left(s).len() > 0 ==> !is_config_ws(trim_left(s)[0]),
    decreases s.len(),
{
    if s.len() > 0 && is_config_ws(s[0]) {
        lemma_trim_left_head(s.drop_first());
    }
}

/// A character that occurs nowhere in a sequence occurs nowhere in the
/// trimmed sequence either.
pub proof fn lemma_trimmed_preserves_absence(s: Seq<char>, c: char)
    requires
        forall|k: int| 0 <= k < s.len() ==> s[k] != c,
    ensures
        forall|k: int| 0 <= k < trimmed(s).len() ==> trimmed(s)[k] != c,
{
    let u = trim_left(s);
    lemma_trim_left_is_suffix(s);
    lemma_trim_right_is_prefix(u);
    assert forall|k: int| 0 <= k < trimmed(s).len() implies trimmed(s)[k] != c by {
        assert(trimmed(s)[k] == u[k]);
        assert(u[k] == s[k + s.len() - u.len()]);
    }
}

proof fn lemma_trim_left_is_subrange(s: Seq<char>, i: int)
    requires
        0 <= i <= s.len(),
        forall|k: int| 0 <= k < i ==> is_config_ws(s[k]),
        i == s.len() || !is_config_ws(s[i]),
    ensures
        trim_left(s) == s.subrange(i, s.len() as int),
    decreases i,
{
    if i == 0 {
        assert(s.subrange(0, s.len() as int) =~= s);
    } else {
        let t = s.drop_first();
        assert(forall|k: int| 0 <= k < i - 1 ==> is_config_ws(t[k]));
        lemma_trim_left_is_subrange(t, i - 1);
        assert(t.subrange(i - 1, t.len() as int) =~= s.subrange(i, s.len() as int));
    }
}

proof fn lemma_trim_right_is_subrange(s: Seq<char>, j: int)
    requires
        0 <= j <= s.len(),
        forall|k: int| j <= k < s.len() ==> is_config_ws(s[k]),
        j == 0 || !is_config_ws(s[j - 1]),
    ensures
        trim_right(s) == s.subrange(0, j),
    decreases s.len() - j,
{
    if j == s.len() {
        assert(s.subrange(0, j) =~= s);
    } else {
        let t = s.drop_last();
        assert(forall|k: int| j <= k < t.len() ==> is_config_ws(t[k]));
        lemma_trim_right_is_subrange(t, j);
        assert(t.subrange(0, j) =~= s.subrange(0, j));
    }
}

/// The slice of `s` with whitespace removed on both sides.
pub fn trim_str<'a>(s: &'a str) -> (r: &'a str)
    ensures
        r@ == trimmed(s@),
{
    let len = s.unicode_len();
    let mut i: usize = 0;
    while i < len && config_ws(s.get_char(i))
        invariant
            0 <= i <= len,
            len == s@.len(),
            forall|k: int| 0 <= k < i ==> is_config_ws(s@[k]),
        decreases len - i,
    {
        i = i + 1;
    }
    let mut j: usize = len;
    while j > i && config_ws(s.get_char(j - 1))
        invariant
            i <= j <= len,
            len == s@.len(),
            forall|k: int| j <= k < len ==> is_config_ws(s@[k]),
        decreases j,
    {
        j = j - 1;
    }
    let r = s.substring_char(i, j);
    proof {
        lemma_trim_left_is_subrange(s@, i as int);
        let t = s@.subrange(i as int, len as int);
        assert(forall|k: int| j - i <= k < t.len() ==> is_config_ws(t[k]));
        lemma_trim_right_is_subrange(t, j - i);
        assert(t.subrange(0, j - i) =~= s@.subrange(i as int, j as int));
    }
    r
}

/// The first index at or after `from` where `c` occurs in `s`, or the
/// length of `s` if there is none.
pub fn find_char_from(s: &str, c: char, from: usize) -> (r: usize)
    requires
        from <= s@.len(),
    ensures
        r == find_at(s@, c, from as int),
        from <= r <= s@.len(),
        r < s@.len() ==> s@[r as int] == c,
        forall|k: int| from <= k < r ==> s@[k] != c,
{
    let len = s.unicode_len();
    let mut j: usize = from;
    while j < len && s.get_char(j) != c
        invariant
            from <= j <= len,
            len == s@.len(),
            find_at(s@, c, from as int) == find_at(s@, c, j as int),
        decreases len - j,
    {
        j = j + 1;
    }
    proof {
        lemma_find_at(s@, c, from as int);
    }
    j
}

/// The first index in `[from, to)` where `c` occurs in `s`, or `to` if
/// there is none, stated over the subrange `[from, to)` of `s`.
pub fn find_char_in(s: &str, c: char, from: usize, to: usize) -> (r: usize)
    requires
        from <= to <= s@.len(),
    ensures
        from <= r <= to,
        r - from == find_at(s@.subrange(from as int, to as int), c, 0),
        r < to ==> s@[r as int] == c,
        forall|k: int| from <= k < r ==> s@[k] != c,
{
    let ghost sub = s@.subrange(from as int, to as int);
    let mut j: usize = from;
    while j < to && s.get_char(j) != c
        invariant
            from <= j <= to,
            to <= s@.len(),
            sub == s@.subrange(from as int, to as int),
            find_at(sub, c, 0) == find_at(sub, c, j - from),
            forall|k: int| from <= k < j ==> s@[k] != c,
        decreases to - j,
    {
        proof {
            assert(sub[j - from] == s@[j as int]);
        }
        j = j + 1;
    }
    proof {
        lemma_find_at(sub, c, 0);
        if j < to {
            assert(sub[j - from] == s@[j as int]);
        }
    }
    j
}

/// What remains of an input line once a trailing line feed, and then a
/// trailing carriage return, have been removed.
pub open spec fn cleaned_line(s: Seq<char>) -> Seq<char> {
    let a = if s.len() > 0 && s.last() == '\n' {
        s.drop_last()
    } else {
        s
    };
    if a.len() > 0 && a.last() == '\r' {
        a.drop_last()
    } else {
        a
    }
}

/// Removes a trailing line feed, then a trailing carriage return, as an
/// interactive prompt does with what was read from the terminal.
pub fn clean_input(s: &mut String)
    ensures
        final(s)@ == cleaned_line(old(s)@),
{
    let mut len = s.as_str().unicode_len();
    if len > 0 && s.as_str().get_char(len - 1) == '\n' {
        let t = s.as_str().substring_char(0, len - 1).to_owned();
        proof {
            assert(t@ =~= old(s)@.drop_last());
        }
        *s = t;
        len = len - 1;
    }
    if len > 0 && s.as_str().get_char(len - 1) == '\r' {
        let t = s.as_str().substring_char(0, len - 1).to_owned();
        proof {
            assert(t@ =~= cleaned_line(old(s)@));
        }
        *s = t;
    }
}

} // verus!
