//! Character-level text helpers shared by the connection-string validator
//! and the coordinate-format detector.
//!
//! Everything here works on the character sequence of a string. Byte
//! lengths are recovered from the characters through the UTF-8 encoding
//! width of each code point.

use vstd::prelude::*;

verus! {

/// Whether `char::is_alphabetic` holds of `c`. The Unicode property behind
/// it is not restated here; it is a function of the character alone.
pub uninterp spec fn alphabetic_char(c: char) -> bool;

/// Whether `char::is_numeric` holds of `c`. The Unicode property behind it
/// is not restated here; it is a function of the character alone.
pub uninterp spec fn numeric_char(c: char) -> bool;

/// Whether `char::is_whitespace` holds of `c`. The Unicode property behind
/// it is not restated here; it is a function of the character alone.
pub uninterp spec fn whitespace_char(c: char) -> bool;

/// Relies on char::is_alphabetic: the result depends on the character alone.
#[verifier::external_body]
pub fn char_is_alphabetic(c: char) -> (r: bool)
    ensures
        r == alphabetic_char(c),
{
    c.is_alphabetic()
}

/// Relies on char::is_numeric: the result depends on the character alone.
#[verifier::external_body]
pub fn char_is_numeric(c: char) -> (r: bool)
    ensures
        r == numeric_char(c),
{
    c.is_numeric()
}

/// Relies on char::is_whitespace: the result depends on the character alone.
#[verifier::external_body]
pub fn char_is_whitespace(c: char) -> (r: bool)
    ensures
        r == whitespace_char(c),
{
    c.is_whitespace()
}

/// The characters of `s`, in order, as a vector.
pub fn collect_chars(s: &str) -> (r: Vec<char>)
    ensures
        r@ == s@,
{
    let mut r: Vec<char> = Vec::new();
    for c in it: s.chars()
        invariant
            r@ == it.seq().take(it.index() as int),
            it.seq() == s@,
    {
        r.push(c);
    }
    proof {
        assert(r@ =~= s@);
    }
    r
}

/// How many bytes the UTF-8 encoding of `c` takes.
pub open spec fn spec_utf8_width(c: char) -> int {
    if (c as u32) < 0x80 {
        1
    } else if (c as u32) < 0x800 {
        2
    } else if (c as u32) < 0x10000 {
        3
    } else {
        4
    }
}

/// How many bytes the UTF-8 encoding of `s` takes; this is what
/// `str::len` returns for a string with these characters.
pub open spec fn utf8_len(s: Seq<char>) -> int
    decreases s.len(),
{
    if s.len() == 0 {
        0
    } else {
        utf8_len(s.drop_last()) + spec_utf8_width(s.last())
    }
}

/// How many bytes the UTF-8 encoding of `c` takes.
pub fn utf8_width(c: char) -> (r: u8)
    ensures
        r == spec_utf8_width(c),
{
    let v = c as u32;
    if v < 0x80 {
        1
    } else if v < 0x800 {
        2
    } else if v < 0x10000 {
        3
    } else {
        4
    }
}

/// Every character is one to four bytes wide, so a sequence's byte length
/// lies between its character count and four times that count.
pub proof fn lemma_utf8_len_bounds(s: Seq<char>)
    ensures
        s.len() <= utf8_len(s) <= 4 * s.len(),
    decreases s.len(),
{
    if s.len() > 0 {
        lemma_utf8_len_bounds(s.drop_last());
    }
}

/// The byte length of a prefix is at most the byte length of the whole.
pub proof fn lemma_utf8_len_take_le(s: Seq<char>, k: int)
    requires
        0 <= k <= s.len(),
    ensures
        utf8_len(s.take(k)) <= utf8_len(s),
    decreases s.len() - k,
{
    if k < s.len() {
        lemma_utf8_len_take_le(s, k + 1);
        assert(s.take(k + 1).drop_last() =~= s.take(k));
        assert(s.take(k + 1).last() == s[k]);
        lemma_utf8_len_bounds(s.take(k));
    } else {
        assert(s.take(k) =~= s);
    }
}

/// Whether the UTF-8 encoding of `cs` takes at least `n` bytes.
pub fn utf8_len_at_least(cs: &Vec<char>, n: usize) -> (r: bool)
    requires
        n <= usize::MAX - 4,
    ensures
        r == (utf8_len(cs@) >= n),
{
    if n == 0 {
        proof {
            lemma_utf8_len_bounds(cs@);
        }
        return true;
    }
    let mut acc: usize = 0;
    let mut i: usize = 0;
    while i < cs.len()
        invariant
            0 <= i <= cs.len(),
            acc == utf8_len(cs@.take(i as int)),
            acc < n,
            n <= usize::MAX - 4,
        decreases cs.len() - i,
    {
        let w = utf8_width(cs[i]);
        proof {
            assert(cs@.take(i + 1).drop_last() =~= cs@.take(i as int));
            assert(cs@.take(i + 1).last() == cs@[i as int]);
        }
        acc = acc + w as usize;
        i = i + 1;
        if acc >= n {
            proof {
                lemma_utf8_len_take_le(cs@, i as int);
            }
            return true;
        }
    }
    proof {
        assert(cs@.take(cs@.len() as int) =~= cs@);
    }
    false
}

/// How many characters of `s` equal `c`.
pub open spec fn count_matches(s: Seq<char>, c: char) -> int
    decreases s.len(),
{
    if s.len() == 0 {
        0
    } else {
        count_matches(s.drop_last(), c) + if s.last() == c {
            1int
        } else {
            0int
        }
    }
}

/// No more characters can match than there are characters.
pub proof fn lemma_count_matches_le_len(s: Seq<char>, c: char)
    ensures
        0 <= count_matches(s, c) <= s.len(),
    decreases s.len(),
{
    if s.len() > 0 {
        lemma_count_matches_le_len(s.drop_last(), c);
    }
}

/// How many characters of `cs` equal `c`.
pub fn count_char(cs: &Vec<char>, c: char) -> (r: usize)
    ensures
        r == count_matches(cs@, c),
{
    let mut r: usize = 0;
    let mut i: usize = 0;
    while i < cs.len()
        invariant
            0 <= i <= cs.len(),
            r == count_matches(cs@.take(i as int), c),
        decreases cs.len() - i,
    {
        proof {
            assert(cs@.take(i + 1).drop_last() =~= cs@.take(i as int));
            assert(cs@.take(i + 1).last() == cs@[i as int]);
            lemma_count_matches_le_len(cs@.take(i as int), c);
        }
        if cs[i] == c {
            r = r + 1;
        }
        i = i + 1;
    }
    proof {
        assert(cs@.take(cs@.len() as int) =~= cs@);
    }
    r
}

/// Whether some character of `s` equals `c`.
pub open spec fn has_char(s: Seq<char>, c: char) -> bool {
    exists|i: int| 0 <= i < s.len() && s[i] == c
}

/// Whether some character of `cs` equals `c`.
pub fn contains_char(cs: &Vec<char>, c: char) -> (r: bool)
    ensures
        r == has_char(cs@, c),
{
    let mut i: usize = 0;
    while i < cs.len()
        invariant
            0 <= i <= cs.len(),
            forall|j: int| 0 <= j < i ==> cs@[j] != c,
        decreases cs.len() - i,
    {
        if cs[i] == c {
            return true;
        }
        i = i + 1;
    }
    false
}

/// Whether position `i` starts a maximal run of non-whitespace characters.
pub open spec fn token_start(s: Seq<char>, i: int) -> bool {
    !whitespace_char(s[i]) && (i == 0 || whitespace_char(s[i - 1]))
}

/// How many maximal runs of non-whitespace characters `s` holds; this is
/// what `str::split_whitespace` yields for a string with these characters.
pub open spec fn token_count(s: Seq<char>) -> int
    decreases s.len(),
{
    if s.len() == 0 {
        0
    } else {
        token_count(s.drop_last()) + if token_start(s, s.len() - 1) {
            1int
        } else {
            0int
        }
    }
}

/// There are no more runs than characters.
pub proof fn lemma_token_count_le_len(s: Seq<char>)
    ensures
        0 <= token_count(s) <= s.len(),
    decreases s.len(),
{
    if s.len() > 0 {
        lemma_token_count_le_len(s.drop_last());
    }
}

/// How many maximal runs of non-whitespace characters `cs` holds.
pub fn count_tokens(cs: &Vec<char>) -> (r: usize)
    ensures
        r == token_count(cs@),
{
    let mut r: usize = 0;
    let mut i: usize = 0;
    while i < cs.len()
        invariant
            0 <= i <= cs.len(),
            r == token_count(cs@.take(i as int)),
        decreases cs.len() - i,
    {
        proof {
            assert(cs@.take(i + 1).drop_last() =~= cs@.take(i as int));
            assert(cs@.take(i + 1).last() == cs@[i as int]);
            lemma_token_count_le_len(cs@.take(i as int));
        }
        let here_ws = char_is_whitespace(cs[i]);
        let starts = if i == 0 {
            !here_ws
        } else {
            !here_ws && char_is_whitespace(cs[i - 1])
        };
        if starts {
            r = r + 1;
        }
        i = i + 1;
    }
    proof {
        assert(cs@.take(cs@.len() as int) =~= cs@);
    }
    r
}

/// `s` without its leading whitespace characters.
pub open spec fn trim_start_rec(s: Seq<char>) -> Seq<char>
    decreases s.len(),
{
    if s.len() > 0 && whitespace_char(s[0]) {
        trim_start_rec(s.drop_first())
    } else {
        s
    }
}

/// `s` without its trailing whitespace characters.
pub open spec fn trim_end_rec(s: Seq<char>) -> Seq<char>
    decreases s.len(),
{
    if s.len() > 0 && whitespace_char(s.last()) {
        trim_end_rec(s.drop_last())
    } else {
        s
    }
}

/// `s` without leading and trailing whitespace; this is what `str::trim`
/// returns for a string with these characters.
pub open spec fn trimmed(s: Seq<char>) -> Seq<char> {
    trim_end_rec(trim_start_rec(s))
}

/// The characters of `cs` without leading and trailing whitespace.
pub fn trim_chars(cs: &Vec<char>) -> (r: Vec<char>)
    ensures
        r@ == trimmed(cs@),
{
    let mut i: usize = 0;
    proof {
        assert(cs@.skip(0) =~= cs@);
    }
    while i < cs.len() && char_is_whitespace(cs[i])
        invariant
            0 <= i <= cs.len(),
            trim_start_rec(cs@.skip(i as int)) == trim_start_rec(cs@),
        decreases cs.len() - i,
    {
        proof {
            assert(cs@.skip(i as int).drop_first() =~= cs@.skip(i + 1));
        }
        i = i + 1;
    }
    proof {
        assert(trim_start_rec(cs@.skip(i as int)) == cs@.skip(i as int));
        assert(cs@.subrange(i as int, cs@.len() as int) =~= cs@.skip(i as int));
    }
    let mut j: usize = cs.len();
    while j > i && char_is_whitespace(cs[j - 1])
        invariant
            i <= j <= cs.len(),
            trim_end_rec(cs@.subrange(i as int, j as int)) == trim_end_rec(cs@.skip(i as int)),
        decreases j,
    {
        proof {
            assert(cs@.subrange(i as int, j as int).drop_last() =~= cs@.subrange(
                i as int,
                j - 1,
            ));
            assert(cs@.subrange(i as int, j as int).last() == cs@[j - 1]);
        }
        j = j - 1;
    }
    proof {
        assert(trim_end_rec(cs@.subrange(i as int, j as int)) == cs@.subrange(i as int, j as int));
    }
    let mut r: Vec<char> = Vec::new();
    let mut k: usize = i;
    while k < j
        invariant
            i <= k <= j <= cs.len(),
            r@ == cs@.subrange(i as int, k as int),
        decreases j - k,
    {
        proof {
            assert(cs@.subrange(i as int, k + 1).drop_last() =~= cs@.subrange(i as int, k as int));
            assert(cs@.subrange(i as int, k + 1).last() == cs@[k as int]);
        }
        r.push(cs[k]);
        k = k + 1;
    }
    proof {
        assert(r@ =~= cs@.subrange(i as int, j as int));
    }
    r
}

} // verus!
