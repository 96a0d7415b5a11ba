//! Character classes and small text routines shared by the parsers and emitters.
//!
//! Text is modelled as `Seq<char>`, the view of `str` and `String`. What the
//! Unicode tables say of a character is looked up once, when a text is
//! spelled out into letters; the routines that depend on it work on letters.

use vstd::prelude::*;

verus! {

/// Whether `c` has the Unicode `Uppercase` property, as `char::is_uppercase` reports it.
pub uninterp spec fn char_is_uppercase(c: char) -> bool;

/// Whether `c` has the Unicode `Lowercase` property, as `char::is_lowercase` reports it.
pub uninterp spec fn char_is_lowercase(c: char) -> bool;

/// Whether `c` has the Unicode `White_Space` property, as `char::is_whitespace` reports it.
pub uninterp spec fn char_is_whitespace(c: char) -> bool;

/// The whole lowercase mapping of `c`, as `char::to_lowercase` yields it.
pub uninterp spec fn char_lowercase_text(c: char) -> Seq<char>;

/// The whole uppercase mapping of `c`, as `char::to_uppercase` yields it.
pub uninterp spec fn char_uppercase_text(c: char) -> Seq<char>;

/// Calls `char::is_uppercase`. Trusted: the result is the Unicode property lookup
/// that `char_is_uppercase` names.
#[verifier::external_body]
pub(crate) fn is_uppercase(c: char) -> (b: bool)
    ensures
        b == char_is_uppercase(c),
{
    c.is_uppercase()
}

/// Calls `char::is_lowercase`. Trusted: the result is the Unicode property lookup
/// that `char_is_lowercase` names.
#[verifier::external_body]
pub(crate) fn is_lowercase(c: char) -> (b: bool)
    ensures
        b == char_is_lowercase(c),
{
    c.is_lowercase()
}

/// Calls `char::is_whitespace`. Trusted: the result is the Unicode property lookup
/// that `char_is_whitespace` names.
#[verifier::external_body]
pub(crate) fn is_whitespace(c: char) -> (b: bool)
    ensures
        b == char_is_whitespace(c),
{
    c.is_whitespace()
}

/// Calls `char::to_lowercase` and collects what it yields. Trusted: the collected
/// text is the mapping that `char_lowercase_text` names.
#[verifier::external_body]
pub(crate) fn lowercase_text(c: char) -> (r: String)
    ensures
        r@ == char_lowercase_text(c),
{
    c.to_lowercase().collect()
}

/// Calls `char::to_uppercase` and collects what it yields. Trusted: the collected
/// text is the mapping that `char_uppercase_text` names.
#[verifier::external_body]
pub(crate) fn uppercase_text(c: char) -> (r: String)
    ensures
        r@ == char_uppercase_text(c),
{
    c.to_uppercase().collect()
}

/// Calls `String::push`. Trusted: the character is appended and nothing else changes.
#[verifier::external_body]
pub(crate) fn push_char(s: &mut String, c: char)
    ensures
        final(s)@ == old(s)@.push(c),
{
    s.push(c)
}

/// The lowercase form of `c` as one character: the first character of its
/// lowercase mapping, or `c` itself if the mapping is empty.
pub open spec fn char_lowercase_head(c: char) -> char {
    if char_lowercase_text(c).len() > 0 {
        char_lowercase_text(c)[0]
    } else {
        c
    }
}

/// Gives the lowercase form of `c` as one character.
pub fn lowercase_head(c: char) -> (r: char)
    ensures
        r == char_lowercase_head(c),
{
    let mapping = lowercase_text(c);
    if mapping.as_str().unicode_len() > 0 {
        mapping.as_str().get_char(0)
    } else {
        c
    }
}

/// Text equality.
pub fn str_eq(a: &str, b: &str) -> (r: bool)
    ensures
        r == (a@ == b@),
{
    let x = a.to_owned();
    let y = b.to_owned();
    x == y
}

/// Whether `s` begins with `prefix`.
pub fn starts_with(s: &str, prefix: &str) -> (r: bool)
    ensures
        r == prefix@.is_prefix_of(s@),
{
    let n: usize = s.unicode_len();
    let m: usize = prefix.unicode_len();
    if m > n {
        return false;
    }
    let head = s.substring_char(0, m);
    let r = str_eq(head, prefix);
    proof {
        if r {
            assert(s@.subrange(0, m as int) =~= prefix@);
        } else if prefix@.is_prefix_of(s@) {
            assert(s@.subrange(0, m as int) =~= prefix@);
        }
    }
    r
}

/// Whether `s` ends with `suffix`.
pub fn ends_with(s: &str, suffix: &str) -> (r: bool)
    ensures
        r == suffix@.is_suffix_of(s@),
{
    let n: usize = s.unicode_len();
    let m: usize = suffix.unicode_len();
    if m > n {
        return false;
    }
    let tail = s.substring_char(n - m, n);
    let r = str_eq(tail, suffix);
    proof {
        if r {
            assert(s@.subrange(n - m, n as int) =~= suffix@);
        } else if suffix@.is_suffix_of(s@) {
            assert(s@.subrange(n - m, n as int) =~= suffix@);
        }
    }
    r
}

/// A character with what the Unicode tables say of it.
#[derive(Clone, Copy, Debug, PartialEq, Eq, Structural)]
pub struct Letter {
    /// The character.
    pub ch: char,
    /// Whether it is uppercase.
    pub is_uppercase: bool,
    /// Whether it is lowercase.
    pub is_lowercase: bool,
    /// Whether it is whitespace.
    pub is_whitespace: bool,
    /// The first character of its lowercase mapping.
    pub lowercase: char,
}

/// The letter of a character.
pub open spec fn letter(c: char) -> Letter {
    Letter {
        ch: c,
        is_uppercase: char_is_uppercase(c),
        is_lowercase: char_is_lowercase(c),
        is_whitespace: char_is_whitespace(c),
        lowercase: char_lowercase_head(c),
    }
}

/// The letters of a text.
pub open spec fn letters(s: Seq<char>) -> Seq<Letter> {
    Seq::new(s.len(), |i: int| letter(s[i]))
}

/// The text that a list of letters spells.
pub open spec fn spelled(letters: Seq<Letter>) -> Seq<char> {
    Seq::new(letters.len(), |i: int| letters[i].ch)
}

/// Looks a character up in the Unicode tables.
pub fn classify(c: char) -> (classified: Letter)
    ensures
        classified == letter(c),
{
    Letter {
        ch: c,
        is_uppercase: is_uppercase(c),
        is_lowercase: is_lowercase(c),
        is_whitespace: is_whitespace(c),
        lowercase: lowercase_head(c),
    }
}

/// Spells a text out: its characters in order, each looked up in the
/// Unicode tables.
pub fn spell(s: &str) -> (spelling: Vec<Letter>)
    ensures
        spelling@ == letters(s@),
{
    let mut spelling: Vec<Letter> = Vec::new();
    for c in it: s.chars()
        invariant
            it.seq() == s@,
            spelling@ == letters(s@.take(it.index() as int)),
    {
        let ghost before = spelling@;
        spelling.push(classify(c));
        assert(spelling@ =~= letters(s@.take(it.index() + 1)));
    }
    assert(s@.take(s@.len() as int) =~= s@);
    spelling
}

/// Letters without the whitespace at their start.
pub open spec fn trim_start(letters: Seq<Letter>) -> Seq<Letter>
    decreases letters.len(),
{
    if letters.len() > 0 && letters.first().is_whitespace {
        trim_start(letters.drop_first())
    } else {
        letters
    }
}

/// Letters without the whitespace at their end.
pub open spec fn trim_end(letters: Seq<Letter>) -> Seq<Letter>
    decreases letters.len(),
{
    if letters.len() > 0 && letters.last().is_whitespace {
        trim_end(letters.drop_last())
    } else {
        letters
    }
}

/// Letters without the whitespace at their start and end.
pub open spec fn trimmed_letters(letters: Seq<Letter>) -> Seq<Letter> {
    trim_end(trim_start(letters))
}

/// `s` without leading and trailing whitespace.
pub open spec fn trimmed(s: Seq<char>) -> Seq<char> {
    spelled(trimmed_letters(letters(s)))
}

/// Finds what stays of the letters from `from` up to `to` when the
/// whitespace at both ends is cut off: where it starts and where it ends.
pub fn trim_bounds(letters: &Vec<Letter>, from: usize, to: usize) -> (bounds: (usize, usize))
    requires
        from <= to <= letters@.len(),
    ensures
        from <= bounds.0 <= bounds.1 <= to,
        letters@.subrange(bounds.0 as int, bounds.1 as int) == trimmed_letters(
            letters@.subrange(from as int, to as int),
        ),
{
    let mut a: usize = from;
    while a < to && letters[a].is_whitespace
        invariant
            from <= a <= to <= letters@.len(),
            trim_start(letters@.subrange(from as int, to as int)) == trim_start(
                letters@.subrange(a as int, to as int),
            ),
        decreases to - a,
    {
        proof {
            let rest = letters@.subrange(a as int, to as int);
            assert(rest.first() == letters@[a as int]);
            assert(rest.drop_first() =~= letters@.subrange(a + 1, to as int));
        }
        a = a + 1;
    }
    proof {
        let rest = letters@.subrange(a as int, to as int);
        if a < to {
            assert(rest.first() == letters@[a as int]);
        }
        assert(trim_start(letters@.subrange(from as int, to as int)) == rest);
    }
    let mut b: usize = to;
    while b > a && letters[b - 1].is_whitespace
        invariant
            from <= a <= b <= to <= letters@.len(),
            trimmed_letters(letters@.subrange(from as int, to as int)) == trim_end(
                letters@.subrange(a as int, b as int),
            ),
        decreases b,
    {
        proof {
            let rest = letters@.subrange(a as int, b as int);
            assert(rest.last() == letters@[b - 1]);
            assert(rest.drop_last() =~= letters@.subrange(a as int, b - 1));
        }
        b = b - 1;
    }
    proof {
        let rest = letters@.subrange(a as int, b as int);
        if b > a {
            assert(rest.last() == letters@[b - 1]);
        }
    }
    (a, b)
}

/// Removes leading and trailing whitespace.
pub fn trim(s: &str) -> (r: &str)
    ensures
        r@ == trimmed(s@),
{
    let spelling = spell(s);
    let n: usize = spelling.len();
    let (a, b) = trim_bounds(&spelling, 0, n);
    proof {
        assert(letters(s@).subrange(0, n as int) =~= letters(s@));
        assert(spelled(letters(s@).subrange(a as int, b as int)) =~= s@.subrange(
            a as int,
            b as int,
        ));
    }
    s.substring_char(a, b)
}

/// The position of the first `c` in `s`, or the length of `s` if there is none.
pub open spec fn first_index_of(s: Seq<char>, c: char) -> nat
    decreases s.len(),
{
    if s.len() == 0 || s.first() == c {
        0
    } else {
        1 + first_index_of(s.drop_first(), c)
    }
}

/// Finds the first `c` in `s`; returns the length of `s` if there is none.
pub fn find_char(s: &str, c: char) -> (r: usize)
    ensures
        r == first_index_of(s@, c),
        r <= s@.len(),
{
    let n: usize = s.unicode_len();
    let mut i: usize = 0;
    assert(s@.subrange(0, n as int) =~= s@);
    while i < n && s.get_char(i) != c
        invariant
            i <= n,
            n == s@.len(),
            first_index_of(s@, c) == i + first_index_of(s@.subrange(i as int, n as int), c),
        decreases n - i,
    {
        proof {
            let rest = s@.subrange(i as int, n as int);
            assert(rest.first() == s@[i as int]);
            assert(rest.drop_first() =~= s@.subrange(i + 1, n as int));
        }
        i = i + 1;
    }
    proof {
        let rest = s@.subrange(i as int, n as int);
        if i < n {
            assert(rest.first() == s@[i as int]);
        }
    }
    i
}

/// The character for the decimal digit `d`.
pub open spec fn digit_char(d: int) -> char
    recommends
        0 <= d < 10,
{
    (48 + d) as char
}

/// The decimal digits of `n`, most significant first, without leading zeros.
pub open spec fn decimal_digits(n: nat) -> Seq<char>
    decreases n,
{
    if n < 10 {
        seq![digit_char(n as int)]
    } else {
        decimal_digits(n / 10).push(digit_char((n % 10) as int))
    }
}

/// The decimal text of `n`, with a leading minus sign when negative.
pub open spec fn decimal(n: int) -> Seq<char> {
    if n < 0 {
        seq!['-'] + decimal_digits((-n) as nat)
    } else {
        decimal_digits(n as nat)
    }
}

/// The decimal digits of a number are digits, and there is at least one.
pub proof fn lemma_decimal_digits_are_digits(n: nat)
    ensures
        decimal_digits(n).len() >= 1,
        forall|i: int|
            0 <= i < decimal_digits(n).len() ==> '0' <= #[trigger] decimal_digits(n)[i] <= '9',
    decreases n,
{
    if n >= 10 {
        lemma_decimal_digits_are_digits(n / 10);
    }
}

/// The decimal text of a number is not empty and holds no underscore.
pub proof fn lemma_decimal_has_no_underscore(n: int)
    ensures
        decimal(n).len() >= 1,
        forall|i: int| 0 <= i < decimal(n).len() ==> #[trigger] decimal(n)[i] != '_',
{
    if n < 0 {
        lemma_decimal_digits_are_digits((-n) as nat);
        let digits = decimal_digits((-n) as nat);
        assert forall|i: int| 0 <= i < decimal(n).len() implies #[trigger] decimal(n)[i]
            != '_' by {
            if i > 0 {
                assert(decimal(n)[i] == digits[i - 1]);
            }
        }
    } else {
        lemma_decimal_digits_are_digits(n as nat);
    }
}

/// Appends the decimal digits of `n` to `out`.
pub fn push_decimal_digits(out: &mut String, n: u64)
    ensures
        final(out)@ == old(out)@ + decimal_digits(n as nat),
    decreases n,
{
    if n >= 10 {
        push_decimal_digits(out, n / 10);
    }
    let d: u8 = (n % 10) as u8;
    let c: char = (48u8 + d) as char;
    push_char(out, c);
    proof {
        assert(c == digit_char((n % 10) as int));
        if n < 10 {
            assert(old(out)@.push(c) =~= old(out)@ + decimal_digits(n as nat));
        } else {
            assert((old(out)@ + decimal_digits((n / 10) as nat)).push(c) =~= old(out)@
                + decimal_digits(n as nat));
        }
    }
}

/// The decimal text of an unsigned number.
pub fn unsigned_decimal(n: u64) -> (r: String)
    ensures
        r@ == decimal(n as int),
{
    let mut out = String::new();
    push_decimal_digits(&mut out, n);
    assert(out@ =~= decimal_digits(n as nat));
    out
}

/// The decimal text of a signed number.
pub fn signed_decimal(n: i64) -> (r: String)
    ensures
        r@ == decimal(n as int),
{
    let mut out = String::new();
    if n < 0 {
        let magnitude: u64 = ((-(n + 1)) as u64) + 1;
        push_char(&mut out, '-');
        push_decimal_digits(&mut out, magnitude);
        assert(out@ =~= seq!['-'] + decimal_digits((-n) as nat));
    } else {
        push_decimal_digits(&mut out, n as u64);
        assert(out@ =~= decimal_digits(n as nat));
    }
    out
}

/// `parts` with `sep` between neighbours.
pub open spec fn join(parts: Seq<Seq<char>>, sep: Seq<char>) -> Seq<char>
    decreases parts.len(),
{
    if parts.len() == 0 {
        Seq::empty()
    } else if parts.len() == 1 {
        parts[0]
    } else {
        join(parts.drop_last(), sep) + sep + parts.last()
    }
}

/// Concatenates `parts` with `sep` between neighbours.
pub fn join_strings(parts: &Vec<String>, sep: &str) -> (r: String)
    ensures
        r@ == join(parts.deep_view(), sep@),
{
    let mut out = String::new();
    let n: usize = parts.len();
    let mut i: usize = 0;
    while i < n
        invariant
            i <= n,
            n == parts@.len(),
            out@ == join(parts.deep_view().take(i as int), sep@),
        decreases n - i,
    {
        proof {
            let all = parts.deep_view();
            assert(all.take(i + 1).drop_last() =~= all.take(i as int));
            assert(all.take(i + 1).last() == parts@[i as int]@);
        }
        if i > 0 {
            out.append(sep);
        }
        out.append(parts[i].as_str());
        proof {
            if i == 0 {
                assert(out@ =~= parts@[0]@);
            }
        }
        i = i + 1;
    }
    proof {
        assert(parts.deep_view().take(n as int) =~= parts.deep_view());
    }
    out
}

/// Copies a list of strings.
pub fn clone_strings(names: &Vec<String>) -> (copy: Vec<String>)
    ensures
        copy.deep_view() == names.deep_view(),
{
    let mut copy: Vec<String> = Vec::new();
    let n: usize = names.len();
    let mut i: usize = 0;
    while i < n
        invariant
            i <= n,
            n == names@.len(),
            copy.deep_view() == names.deep_view().take(i as int),
        decreases n - i,
    {
        let ghost before = copy.deep_view();
        copy.push(names[i].clone());
        assert(copy.deep_view() =~= before.push(names@[i as int]@));
        assert(copy.deep_view() =~= names.deep_view().take(i + 1));
        i = i + 1;
    }
    assert(names.deep_view().take(n as int) =~= names.deep_view());
    copy
}

} // verus!
