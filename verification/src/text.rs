//! Character-level text utilities shared by the command handlers: comparison,
//! prefix tests, trimming, splitting on whitespace and decimal rendering.

use vstd::prelude::*;

verus! {

/// Whether `c` is whitespace: whether it has the Unicode property
/// `White_Space`. These are the characters U+0009 to U+000D, U+0020, U+0085,
/// U+00A0, U+1680, U+2000 to U+200A, U+2028, U+2029, U+202F, U+205F and
/// U+3000.
pub open spec fn whitespace(c: char) -> bool {
    let n = c as u32;
    ||| 0x0009 <= n <= 0x000D
    ||| n == 0x0020
    ||| n == 0x0085
    ||| n == 0x00A0
    ||| n == 0x1680
    ||| 0x2000 <= n <= 0x200A
    ||| n == 0x2028
    ||| n == 0x2029
    ||| n == 0x202F
    ||| n == 0x205F
    ||| n == 0x3000
}

/// Calls `char::is_whitespace` of the standard library, which tells whether
/// a character has the Unicode property `White_Space`. Nothing is proved of
/// it here; what is taken on trust is that it holds of exactly the
/// characters that [`whitespace`] lists.
#[verifier::external_body]
pub(crate) fn is_whitespace(c: char) -> (b: bool)
    ensures
        b == whitespace(c),
{
    c.is_whitespace()
}

/// The text that formatting a string with `{:?}` produces: the string in
/// double quotes, with its special characters escaped.
pub uninterp spec fn debug_quoted(s: Seq<char>) -> Seq<char>;

/// Formats `s` with `{:?}`, that is, through the `Debug` implementation of
/// `str` in the standard library. Nothing is proved of it here; what is
/// taken on trust is that the output depends on the characters of `s` alone,
/// so that it is what [`debug_quoted`] stands for.
#[verifier::external_body]
pub(crate) fn debug_quote(s: &str) -> (r: String)
    ensures
        r@ == debug_quoted(s@),
{
    format!("{:?}", s)
}

/// Number of whitespace characters at the front of `s`.
pub open spec fn leading_whitespace(s: Seq<char>) -> nat
    decreases s.len(),
{
    if s.len() > 0 && whitespace(s[0]) {
        1 + leading_whitespace(s.drop_first())
    } else {
        0
    }
}

/// Number of whitespace characters at the back of `s`.
pub open spec fn trailing_whitespace(s: Seq<char>) -> nat
    decreases s.len(),
{
    if s.len() > 0 && whitespace(s.last()) {
        1 + trailing_whitespace(s.drop_last())
    } else {
        0
    }
}

/// Number of non-whitespace characters at the front of `s`.
pub open spec fn word_length(s: Seq<char>) -> nat
    decreases s.len(),
{
    if s.len() > 0 && !whitespace(s[0]) {
        1 + word_length(s.drop_first())
    } else {
        0
    }
}

/// `s` without the whitespace at its front.
pub open spec fn trimmed_start(s: Seq<char>) -> Seq<char> {
    s.skip(leading_whitespace(s) as int)
}

/// `s` without the whitespace at its back.
pub open spec fn trimmed_end(s: Seq<char>) -> Seq<char> {
    s.take(s.len() - trailing_whitespace(s))
}

/// `s` without the whitespace at either end.
pub open spec fn trimmed(s: Seq<char>) -> Seq<char> {
    trimmed_end(trimmed_start(s))
}

/// The maximal runs of non-whitespace characters of `s`, in order.
pub open spec fn words(s: Seq<char>) -> Seq<Seq<char>>
    decreases s.len(),
    via words_decreases
{
    let t = trimmed_start(s);
    if t.len() == 0 {
        Seq::empty()
    } else {
        seq![t.take(word_length(t) as int)] + words(t.skip(word_length(t) as int))
    }
}

#[via_fn]
proof fn words_decreases(s: Seq<char>) {
    let t = trimmed_start(s);
    lemma_leading_whitespace_bounds(s);
    if t.len() != 0 {
        lemma_word_length_bounds(t);
    }
}

/// The whitespace prefix lies within the sequence and ends at a character
/// that is no whitespace, or at the end.
pub proof fn lemma_leading_whitespace_bounds(s: Seq<char>)
    ensures
        leading_whitespace(s) <= s.len(),
        forall|i: int| 0 <= i < leading_whitespace(s) ==> whitespace(#[trigger] s[i]),
        leading_whitespace(s) < s.len() ==> !whitespace(s[leading_whitespace(s) as int]),
    decreases s.len(),
{
    if s.len() > 0 && whitespace(s[0]) {
        let rest = s.drop_first();
        lemma_leading_whitespace_bounds(rest);
        assert forall|i: int| 0 <= i < leading_whitespace(s) implies whitespace(
            #[trigger] s[i],
        ) by {
            if i > 0 {
                assert(s[i] == rest[i - 1]);
            }
        }
        if leading_whitespace(s) < s.len() {
            assert(s[leading_whitespace(s) as int] == rest[leading_whitespace(rest) as int]);
        }
    }
}

/// The whitespace suffix lies within the sequence.
pub proof fn lemma_trailing_whitespace_bounds(s: Seq<char>)
    ensures
        trailing_whitespace(s) <= s.len(),
        forall|i: int|
            s.len() - trailing_whitespace(s) <= i < s.len() ==> whitespace(#[trigger] s[i]),
        trailing_whitespace(s) < s.len() ==> !whitespace(
            s[s.len() - trailing_whitespace(s) - 1],
        ),
    decreases s.len(),
{
    if s.len() > 0 && whitespace(s.last()) {
        let rest = s.drop_last();
        lemma_trailing_whitespace_bounds(rest);
        assert forall|i: int| s.len() - trailing_whitespace(s) <= i < s.len() implies whitespace(
            #[trigger] s[i],
        ) by {
            if i < s.len() - 1 {
                assert(s[i] == rest[i]);
            }
        }
        if trailing_whitespace(s) < s.len() {
            assert(s[s.len() - trailing_whitespace(s) - 1] == rest[rest.len()
                - trailing_whitespace(rest) - 1]);
        }
    }
}

/// A word lies within the sequence, holds no whitespace, and is not empty
/// where the sequence starts with a character that is no whitespace.
pub proof fn lemma_word_length_bounds(s: Seq<char>)
    ensures
        word_length(s) <= s.len(),
        forall|i: int| 0 <= i < word_length(s) ==> !whitespace(#[trigger] s[i]),
        word_length(s) < s.len() ==> whitespace(s[word_length(s) as int]),
        s.len() > 0 && !whitespace(s[0]) ==> word_length(s) >= 1,
    decreases s.len(),
{
    if s.len() > 0 && !whitespace(s[0]) {
        let rest = s.drop_first();
        lemma_word_length_bounds(rest);
        assert forall|i: int| 0 <= i < word_length(s) implies !whitespace(#[trigger] s[i]) by {
            if i > 0 {
                assert(s[i] == rest[i - 1]);
            }
        }
        if word_length(s) < s.len() {
            assert(s[word_length(s) as int] == rest[word_length(rest) as int]);
        }
    }
}

/// What is left after trimming neither starts nor ends with whitespace.
pub proof fn lemma_trimmed_is_bare(s: Seq<char>)
    ensures
        trimmed(s).len() > 0 ==> !whitespace(trimmed(s).first()) && !whitespace(
            trimmed(s).last(),
        ),
        trimmed(s).len() <= s.len(),
{
    let t = trimmed_start(s);
    lemma_leading_whitespace_bounds(s);
    lemma_trailing_whitespace_bounds(t);
    if trimmed(s).len() > 0 {
        assert(trimmed(s).last() == t[t.len() - trailing_whitespace(t) - 1]);
        assert(trimmed(s).first() == s[leading_whitespace(s) as int]);
    }
}

/// Whether the two texts hold the same characters.
pub fn same_text(a: &str, b: &str) -> (r: bool)
    ensures
        r == (a@ == b@),
{
    a.to_owned() == b.to_owned()
}

/// The characters of `s`, one by one.
pub fn chars_of(s: &str) -> (r: Vec<char>)
    ensures
        r@ == s@,
{
    let mut out: Vec<char> = Vec::new();
    for c in it: s.chars()
        invariant
            it.seq() == s@,
            out@ == s@.take(it.index()),
    {
        assert(s@.take(it.index() + 1) == s@.take(it.index()).push(c));
        out.push(c);
    }
    assert(s@.take(s@.len() as int) == s@);
    out
}

/// Whether `text` begins with `prefix`.
pub fn starts_with(text: &str, prefix: &str) -> (r: bool)
    ensures
        r == prefix@.is_prefix_of(text@),
{
    let t = chars_of(text);
    let p = chars_of(prefix);
    if p.len() > t.len() {
        return false;
    }
    let mut i: usize = 0;
    while i < p.len()
        invariant
            i <= p.len() <= t.len(),
            p@ == prefix@,
            t@ == text@,
            forall|j: int| 0 <= j < i ==> p@[j] == t@[j],
        decreases p.len() - i,
    {
        if p[i] != t[i] {
            assert(text@.subrange(0, prefix@.len() as int)[i as int] != prefix@[i as int]);
            return false;
        }
        i = i + 1;
    }
    assert(prefix@ =~= text@.subrange(0, prefix@.len() as int));
    true
}

/// `s` with every leading repetition of `prefix` removed.
pub open spec fn without_leading(s: Seq<char>, prefix: Seq<char>) -> Seq<char>
    decreases s.len(),
{
    if prefix.len() > 0 && prefix.is_prefix_of(s) {
        without_leading(s.skip(prefix.len() as int), prefix)
    } else {
        s
    }
}

/// Index of the first character at or after `from` that is no whitespace.
fn skip_whitespace(v: &Vec<char>, from: usize) -> (to: usize)
    requires
        from <= v.len(),
    ensures
        to == from + leading_whitespace(v@.skip(from as int)),
        from <= to <= v.len(),
{
    let mut i: usize = from;
    while i < v.len() && is_whitespace(v[i])
        invariant
            from <= i <= v.len(),
            from + leading_whitespace(v@.skip(from as int)) == i + leading_whitespace(
                v@.skip(i as int),
            ),
        decreases v.len() - i,
    {
        assert(v@.skip(i as int).drop_first() == v@.skip(i + 1));
        i = i + 1;
    }
    i
}

/// Index of the first whitespace character at or after `from`.
fn skip_word(v: &Vec<char>, from: usize) -> (to: usize)
    requires
        from <= v.len(),
    ensures
        to == from + word_length(v@.skip(from as int)),
        from <= to <= v.len(),
{
    let mut i: usize = from;
    while i < v.len() && !is_whitespace(v[i])
        invariant
            from <= i <= v.len(),
            from + word_length(v@.skip(from as int)) == i + word_length(v@.skip(i as int)),
        decreases v.len() - i,
    {
        assert(v@.skip(i as int).drop_first() == v@.skip(i + 1));
        i = i + 1;
    }
    i
}

/// Index just behind the last character before `to` that is no whitespace,
/// looking no further back than `from`.
fn skip_whitespace_back(v: &Vec<char>, from: usize, to: usize) -> (end: usize)
    requires
        from <= to <= v.len(),
    ensures
        end == to - trailing_whitespace(v@.subrange(from as int, to as int)),
        from <= end <= to,
{
    let mut i: usize = to;
    while i > from && is_whitespace(v[i - 1])
        invariant
            from <= i <= to <= v.len(),
            to - trailing_whitespace(v@.subrange(from as int, to as int)) == i
                - trailing_whitespace(v@.subrange(from as int, i as int)),
        decreases i,
    {
        assert(v@.subrange(from as int, i as int).drop_last() == v@.subrange(
            from as int,
            i - 1,
        ));
        i = i - 1;
    }
    i
}

/// The part of `text` between the character positions `from` and `to`.
fn slice_of(text: &str, from: usize, to: usize) -> (r: String)
    requires
        from <= to <= text@.len(),
    ensures
        r@ == text@.subrange(from as int, to as int),
{
    text.substring_char(from, to).to_owned()
}

/// `text` without the whitespace at either end.
pub fn trim(text: &str) -> (r: String)
    ensures
        r@ == trimmed(text@),
{
    let v = chars_of(text);
    let start = skip_whitespace(&v, 0);
    let end = skip_whitespace_back(&v, start, v.len());
    assert(v@.skip(0) == v@);
    assert(v@.subrange(start as int, v.len() as int) == trimmed_start(text@));
    assert(trimmed(text@) == text@.subrange(start as int, end as int));
    slice_of(text, start, end)
}

/// The views of the strings of `v`.
pub open spec fn texts(v: Seq<String>) -> Seq<Seq<char>> {
    v.map_values(|s: String| s@)
}

/// The whitespace-separated words of `text`, in order.
pub fn split_whitespace(text: &str) -> (r: Vec<String>)
    ensures
        texts(r@) == words(text@),
{
    let v = chars_of(text);
    let mut out: Vec<String> = Vec::new();
    let mut i: usize = 0;
    assert(v@.skip(0) == v@);
    assert(texts(out@) + words(v@.skip(0)) == words(text@));
    loop
        invariant
            i <= v.len(),
            v@ == text@,
            texts(out@) + words(v@.skip(i as int)) == words(text@),
        ensures
            texts(out@) == words(text@),
        decreases v.len() - i,
    {
        let ghost rest = v@.skip(i as int);
        let start = skip_whitespace(&v, i);
        assert(trimmed_start(rest) == v@.skip(start as int));
        if start == v.len() {
            assert(words(rest) == Seq::<Seq<char>>::empty());
            assert(texts(out@) + words(rest) == texts(out@));
            break;
        }
        let end = skip_word(&v, start);
        proof {
            lemma_leading_whitespace_bounds(rest);
            lemma_word_length_bounds(v@.skip(start as int));
        }
        let word = slice_of(text, start, end);
        proof {
            let t = v@.skip(start as int);
            assert(t.take(word_length(t) as int) == word@);
            assert(t.skip(word_length(t) as int) == v@.skip(end as int));
            assert(words(rest) == seq![word@] + words(v@.skip(end as int)));
            assert(texts(out@.push(word)) == texts(out@) + seq![word@]);
            assert(texts(out@.push(word)) + words(v@.skip(end as int)) == texts(out@) + words(
                rest,
            ));
        }
        out.push(word);
        i = end;
    }
    out
}

/// `text` with every leading repetition of `prefix` removed.
pub fn strip_leading(text: &str, prefix: &str) -> (r: String)
    ensures
        r@ == without_leading(text@, prefix@),
{
    let t = chars_of(text);
    let p = chars_of(prefix);
    let mut i: usize = 0;
    assert(t@.skip(0) == t@);
    if p.len() > 0 {
        loop
            invariant
                i <= t.len(),
                p.len() > 0,
                t@ == text@,
                p@ == prefix@,
                without_leading(t@.skip(i as int), p@) == without_leading(text@, prefix@),
            ensures
                i <= t.len(),
                without_leading(text@, prefix@) == t@.skip(i as int),
            decreases t.len() - i,
        {
            if !matches_at(&t, i, &p) {
                break;
            }
            assert(t@.skip(i as int).skip(p.len() as int) == t@.skip(i + p.len()));
            i = i + p.len();
        }
    }
    slice_of(text, i, t.len())
}

/// Whether `p` occurs in `t` at position `at`.
fn matches_at(t: &Vec<char>, at: usize, p: &Vec<char>) -> (r: bool)
    requires
        at <= t.len(),
    ensures
        r == p@.is_prefix_of(t@.skip(at as int)),
{
    if p.len() > t.len() - at {
        return false;
    }
    let mut i: usize = 0;
    while i < p.len()
        invariant
            at <= t.len(),
            i <= p.len() <= t.len() - at,
            forall|j: int| 0 <= j < i ==> p@[j] == t@[at + j],
        decreases p.len() - i,
    {
        if p[i] != t[at + i] {
            assert(t@.skip(at as int).subrange(0, p@.len() as int)[i as int] != p@[i as int]);
            return false;
        }
        i = i + 1;
    }
    assert(p@ =~= t@.skip(at as int).subrange(0, p@.len() as int));
    true
}

/// The character that writes the digit `d`.
pub open spec fn digit(d: nat) -> char {
    if d == 0 {
        '0'
    } else if d == 1 {
        '1'
    } else if d == 2 {
        '2'
    } else if d == 3 {
        '3'
    } else if d == 4 {
        '4'
    } else if d == 5 {
        '5'
    } else if d == 6 {
        '6'
    } else if d == 7 {
        '7'
    } else if d == 8 {
        '8'
    } else {
        '9'
    }
}

/// `n` written in base ten, without sign or leading zeros.
pub open spec fn decimal(n: nat) -> Seq<char>
    decreases n,
{
    if n < 10 {
        seq![digit(n)]
    } else {
        decimal(n / 10).push(digit(n % 10))
    }
}

/// The one-character text of the digit `d`.
fn digit_text(d: u64) -> (r: &'static str)
    requires
        d < 10,
    ensures
        r@ == seq![digit(d as nat)],
{
    proof {
        reveal_strlit("0");
        reveal_strlit("1");
        reveal_strlit("2");
        reveal_strlit("3");
        reveal_strlit("4");
        reveal_strlit("5");
        reveal_strlit("6");
        reveal_strlit("7");
        reveal_strlit("8");
        reveal_strlit("9");
    }
    let r = if d == 0 {
        "0"
    } else if d == 1 {
        "1"
    } else if d == 2 {
        "2"
    } else if d == 3 {
        "3"
    } else if d == 4 {
        "4"
    } else if d == 5 {
        "5"
    } else if d == 6 {
        "6"
    } else if d == 7 {
        "7"
    } else if d == 8 {
        "8"
    } else {
        "9"
    };
    assert(r@ =~= seq![digit(d as nat)]);
    r
}

/// `n` written in base ten.
pub fn decimal_string(n: u128) -> (r: String)
    ensures
        r@ == decimal(n as nat),
    decreases n,
{
    if n < 10 {
        digit_text(n as u64).to_owned()
    } else {
        let mut s = decimal_string(n / 10);
        s.append(digit_text((n % 10) as u64));
        s
    }
}

/// Whether `needle` occurs in `text` as a run of consecutive characters.
pub open spec fn occurs_in(needle: Seq<char>, text: Seq<char>) -> bool {
    exists|k: int|
        0 <= k <= text.len() - needle.len() && #[trigger] text.subrange(k, k + needle.len())
            == needle
}

/// A text occurs in whatever is written around it.
pub proof fn lemma_occurs_in_middle(before: Seq<char>, needle: Seq<char>, after: Seq<char>)
    ensures
        occurs_in(needle, before + needle + after),
{
    let text = before + needle + after;
    let k = before.len() as int;
    assert(text.subrange(k, k + needle.len()) =~= needle);
}

/// What occurs in a text occurs in whatever is written around that text.
pub proof fn lemma_occurs_in_wider(
    needle: Seq<char>,
    text: Seq<char>,
    before: Seq<char>,
    after: Seq<char>,
)
    requires
        occurs_in(needle, text),
    ensures
        occurs_in(needle, before + text + after),
{
    let k = choose|k: int|
        0 <= k <= text.len() - needle.len() && #[trigger] text.subrange(k, k + needle.len())
            == needle;
    let wide = before + text + after;
    let j = before.len() + k;
    assert(wide.subrange(j, j + needle.len()) =~= text.subrange(k, k + needle.len()));
}

} // verus!
