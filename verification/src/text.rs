//! Texts as sequences of characters: trimming, searching, splitting and
//! writing numbers.

use vstd::prelude::*;
use vstd::string::*;

verus! {

// ---------------------------------------------------------------------------
// What the standard library does with texts
// ---------------------------------------------------------------------------

/// The characters with Unicode's `White_Space` property.
pub open spec fn is_white_space(c: char) -> bool {
    let u = c as int;
    ||| 0x09 <= u <= 0x0d
    ||| u == 0x20
    ||| u == 0x85
    ||| u == 0xa0
    ||| u == 0x1680
    ||| 0x2000 <= u <= 0x200a
    ||| u == 0x2028
    ||| u == 0x2029
    ||| u == 0x202f
    ||| u == 0x205f
    ||| u == 0x3000
}

/// `s` without the white space at its two ends.
pub open spec fn trimmed(s: Seq<char>) -> Seq<char>
    decreases s.len(),
{
    if s.len() == 0 {
        s
    } else if is_white_space(s.first()) {
        trimmed(s.drop_first())
    } else if is_white_space(s.last()) {
        trimmed(s.drop_last())
    } else {
        s
    }
}

/// Whether `needle` stands somewhere in `hay`.
pub open spec fn contains_text(hay: Seq<char>, needle: Seq<char>) -> bool {
    exists|i: int|
        0 <= i <= hay.len() - needle.len() && #[trigger] hay.subrange(i, i + needle.len())
            == needle
}

/// `str::eq`: two texts are equal when their characters are.
pub assume_specification[ <str as PartialEq>::eq ](a: &str, b: &str) -> (r: bool)
    ensures
        r == (a@ == b@),
;

/// `char::is_whitespace`: the characters with the `White_Space` property.
pub assume_specification[ char::is_whitespace ](c: char) -> (r: bool)
    ensures
        r == is_white_space(c),
;

/// `str::trim`: leading and trailing white space is left out.
pub assume_specification[ str::trim ](s: &str) -> (r: &str)
    ensures
        r@ == trimmed(s@),
;

/// `String::push`: the character is put at the end.
pub assume_specification[ String::push ](s: &mut String, c: char)
    ensures
        final(s)@ == old(s)@.push(c),
;

/// `str::contains` with a text as its pattern: whether that text stands
/// anywhere in `hay`.
#[verifier::external_body]
pub(crate) fn str_contains(hay: &str, needle: &str) -> (r: bool)
    ensures
        r == contains_text(hay@, needle@),
{
    hay.contains(needle)
}

/// Trimming leaves a text that is empty or begins and ends with something other
/// than white space; trimming it again changes nothing.
pub proof fn trimmed_has_no_white_ends(s: Seq<char>)
    ensures
        trimmed(s).len() > 0 ==> !is_white_space(trimmed(s).first()) && !is_white_space(
            trimmed(s).last(),
        ),
        trimmed(trimmed(s)) == trimmed(s),
        trimmed(s).len() <= s.len(),
    decreases s.len(),
{
    if s.len() > 0 {
        if is_white_space(s.first()) {
            trimmed_has_no_white_ends(s.drop_first());
        } else if is_white_space(s.last()) {
            trimmed_has_no_white_ends(s.drop_last());
        }
    }
}

/// Whatever stands in a text stands in every text that quotes it.
pub proof fn contained_in_a_quotation(
    before: Seq<char>,
    quoted: Seq<char>,
    behind: Seq<char>,
    needle: Seq<char>,
)
    requires
        contains_text(quoted, needle),
    ensures
        contains_text(before + quoted + behind, needle),
{
    let i = choose|i: int|
        0 <= i <= quoted.len() - needle.len() && #[trigger] quoted.subrange(i, i + needle.len())
            == needle;
    let all = before + quoted + behind;
    let at = before.len() + i;
    assert(all.subrange(at, at + needle.len()) =~= quoted.subrange(i, i + needle.len()));
}

// ---------------------------------------------------------------------------
// Searching
// ---------------------------------------------------------------------------

/// The index of the first `c` in `s`, or the length of `s` without one.
pub open spec fn first_index(s: Seq<char>, c: char) -> nat
    decreases s.len(),
{
    if s.len() == 0 || s.first() == c {
        0
    } else {
        1 + first_index(s.drop_first(), c)
    }
}

pub proof fn lemma_first_index(s: Seq<char>, c: char)
    ensures
        first_index(s, c) <= s.len(),
        first_index(s, c) < s.len() ==> s[first_index(s, c) as int] == c,
        forall|i: int| 0 <= i < first_index(s, c) ==> s[i] != c,
        first_index(s, c) < s.len() <==> s.contains(c),
    decreases s.len(),
{
    if s.len() > 0 && s.first() != c {
        let t = s.drop_first();
        lemma_first_index(t, c);
        assert forall|i: int| 0 <= i < first_index(s, c) implies s[i] != c by {
            if i > 0 {
                assert(s[i] == t[i - 1]);
            }
        }
        if s.contains(c) {
            let i = choose|i: int| 0 <= i < s.len() && s[i] == c;
            assert(t[i - 1] == c);
        }
    }
}

/// An index that holds `c` and has none before it is the first one.
pub proof fn lemma_first_index_is(s: Seq<char>, c: char, n: nat)
    requires
        n <= s.len(),
        n < s.len() ==> s[n as int] == c,
        forall|i: int| 0 <= i < n ==> s[i] != c,
    ensures
        first_index(s, c) == n,
{
    lemma_first_index(s, c);
    if first_index(s, c) < n {
        assert(s[first_index(s, c) as int] != c);
    }
}

/// The index of the first `c` in `s`, or the number of characters in `s`.
pub fn find_char(s: &str, c: char) -> (r: usize)
    ensures
        r == first_index(s@, c),
{
    let mut n: usize = 0;
    let len: usize = s.unicode_len();
    for ch in it: s.chars()
        invariant
            len == s@.len(),
            it.seq() == s@,
            n == it.index(),
            forall|i: int| 0 <= i < n ==> s@[i] != c,
    {
        if ch == c {
            proof {
                lemma_first_index_is(s@, c, n as nat);
            }
            return n;
        }
        n = n + 1;
    }
    proof {
        lemma_first_index_is(s@, c, n as nat);
    }
    n
}

/// How many characters at the start of `s` are white space, or, with `white`
/// false, are not.
pub open spec fn leading(s: Seq<char>, white: bool) -> nat
    decreases s.len(),
{
    if s.len() == 0 || is_white_space(s.first()) != white {
        0
    } else {
        1 + leading(s.drop_first(), white)
    }
}

pub proof fn lemma_leading(s: Seq<char>, white: bool)
    ensures
        leading(s, white) <= s.len(),
        leading(s, white) < s.len() ==> is_white_space(s[leading(s, white) as int]) != white,
        forall|i: int| 0 <= i < leading(s, white) ==> is_white_space(s[i]) == white,
    decreases s.len(),
{
    if s.len() > 0 && is_white_space(s.first()) == white {
        let t = s.drop_first();
        lemma_leading(t, white);
        assert forall|i: int| 0 <= i < leading(s, white) implies is_white_space(s[i])
            == white by {
            if i > 0 {
                assert(s[i] == t[i - 1]);
            }
        }
    }
}

/// As many characters lead as there are before the first that differs.
pub proof fn lemma_leading_is(s: Seq<char>, white: bool, n: nat)
    requires
        n <= s.len(),
        n < s.len() ==> is_white_space(s[n as int]) != white,
        forall|i: int| 0 <= i < n ==> is_white_space(s[i]) == white,
    ensures
        leading(s, white) == n,
{
    lemma_leading(s, white);
    if leading(s, white) < n {
        assert(is_white_space(s[leading(s, white) as int]) == white);
    }
}

fn count_leading(s: &str, white: bool) -> (r: usize)
    ensures
        r == leading(s@, white),
{
    let mut n: usize = 0;
    let len: usize = s.unicode_len();
    for ch in it: s.chars()
        invariant
            len == s@.len(),
            it.seq() == s@,
            n == it.index(),
            forall|i: int| 0 <= i < n ==> is_white_space(s@[i]) == white,
    {
        if ch.is_whitespace() != white {
            proof {
                lemma_leading(s@, white);
            }
            return n;
        }
        n = n + 1;
    }
    proof {
        lemma_leading(s@, white);
    }
    n
}

// ---------------------------------------------------------------------------
// Words and pieces
// ---------------------------------------------------------------------------

/// `s` from its first character that is not white space.
pub open spec fn skip_white(s: Seq<char>) -> Seq<char> {
    s.skip(leading(s, true) as int)
}

/// The second of the words of `s` that white space separates.
pub open spec fn second_word(s: Seq<char>) -> Option<Seq<char>> {
    let first = skip_white(s);
    let second = skip_white(first.skip(leading(first, false) as int));
    if second.len() == 0 {
        None
    } else {
        Some(second.take(leading(second, false) as int))
    }
}

/// The second white-space separated word of `s`.
pub fn nth_word_two(s: &str) -> (r: Option<&str>)
    ensures
        match r {
            Some(word) => second_word(s@) == Some(word@),
            None => second_word(s@) is None,
        },
{
    let len: usize = s.unicode_len();
    let start: usize = count_leading(s, true);
    proof {
        lemma_leading(s@, true);
    }
    let first = s.substring_char(start, len);
    let first_len: usize = first.unicode_len();
    let end: usize = count_leading(first, false);
    proof {
        lemma_leading(first@, false);
    }
    let rest = first.substring_char(end, first_len);
    let rest_len: usize = rest.unicode_len();
    let gap: usize = count_leading(rest, true);
    proof {
        lemma_leading(rest@, true);
    }
    let second = rest.substring_char(gap, rest_len);
    proof {
        assert(first@ =~= skip_white(s@));
        assert(rest@ =~= first@.skip(leading(first@, false) as int));
        assert(second@ =~= skip_white(rest@));
    }
    if second.is_empty() {
        None
    } else {
        let stop: usize = count_leading(second, false);
        proof {
            lemma_leading(second@, false);
        }
        let word = second.substring_char(0, stop);
        assert(word@ =~= second@.take(leading(second@, false) as int));
        Some(word)
    }
}

/// What stands after the first `c` in `s`.
pub open spec fn after_first(s: Seq<char>, c: char) -> Option<Seq<char>> {
    if s.contains(c) {
        Some(s.skip(first_index(s, c) as int + 1))
    } else {
        None
    }
}

/// The two sides of the first `c` in `s`.
pub fn split_once(s: &str, c: char) -> (r: Option<(&str, &str)>)
    ensures
        match r {
            Some((left, right)) => {
                &&& s@.contains(c)
                &&& left@ == s@.take(first_index(s@, c) as int)
                &&& Some(right@) == after_first(s@, c)
            },
            None => !s@.contains(c),
        },
{
    let len: usize = s.unicode_len();
    let at: usize = find_char(s, c);
    proof {
        lemma_first_index(s@, c);
    }
    if at < len {
        let left = s.substring_char(0, at);
        let right = s.substring_char(at + 1, len);
        assert(left@ =~= s@.take(at as int));
        assert(right@ =~= s@.skip(at + 1));
        Some((left, right))
    } else {
        None
    }
}

/// The pieces of `s` between the separators `sep`: one more than there are
/// separators, some perhaps empty.
pub open spec fn pieces(s: Seq<char>, sep: char) -> Seq<Seq<char>>
    decreases s.len(),
    via pieces_shrinks
{
    let at = first_index(s, sep);
    if at >= s.len() {
        seq![s]
    } else {
        seq![s.take(at as int)] + pieces(s.skip(at as int + 1), sep)
    }
}

#[via_fn]
proof fn pieces_shrinks(s: Seq<char>, sep: char) {
    lemma_first_index(s, sep);
}

// ---------------------------------------------------------------------------
// Numbers
// ---------------------------------------------------------------------------

/// The character of the decimal digit `d`.
pub open spec fn digit_char(d: nat) -> char {
    (48 + d) as char
}

/// `n` in decimal digits, without leading zeros.
pub open spec fn decimal(n: nat) -> Seq<char>
    decreases n,
{
    if n < 10 {
        seq![digit_char(n)]
    } else {
        decimal(n / 10).push(digit_char(n % 10))
    }
}

/// `n` in decimal digits, with a minus sign when it is negative.
pub open spec fn signed_decimal(n: int) -> Seq<char> {
    if n < 0 {
        seq!['-'] + decimal((-n) as nat)
    } else {
        decimal(n as nat)
    }
}

fn digit(d: u64) -> (c: char)
    requires
        d < 10,
    ensures
        c == digit_char(d as nat),
{
    (48 + d as u8) as char
}

/// Writes `n` in decimal digits.
pub fn decimal_text(n: u64) -> (r: String)
    ensures
        r@ == decimal(n as nat),
    decreases n,
{
    if n < 10 {
        let mut text = String::new();
        text.push(digit(n));
        text
    } else {
        let mut text = decimal_text(n / 10);
        text.push(digit(n % 10));
        text
    }
}

/// Writes `n` in decimal digits, with its sign when it is negative.
pub fn signed_decimal_text(n: i32) -> (r: String)
    ensures
        r@ == signed_decimal(n as int),
{
    if n < 0 {
        let mut text = String::new();
        text.push('-');
        let digits = decimal_text((-(n as i64)) as u64);
        text.append(digits.as_str());
        assert(text@ =~= seq!['-'] + decimal((-n) as nat));
        text
    } else {
        decimal_text(n as u64)
    }
}

// ---------------------------------------------------------------------------
// Laws
// ---------------------------------------------------------------------------

/// The number that decimal digits say.
pub open spec fn number_said(digits: Seq<char>) -> int
    decreases digits.len(),
{
    if digits.len() == 0 {
        0
    } else {
        10 * number_said(digits.drop_last()) + (digits.last() as int - '0' as int)
    }
}

/// A number is written in digits that say it, without zeros before them.
pub proof fn decimal_reads_back(n: nat)
    ensures
        number_said(decimal(n)) == n,
        decimal(n).len() > 0,
        n > 0 ==> decimal(n).first() != '0',
        n < 10 ==> decimal(n).len() == 1,
        forall|i: int| 0 <= i < decimal(n).len() ==> '0' <= #[trigger] decimal(n)[i] <= '9',
    decreases n,
{
    if n < 10 {
        assert(decimal(n).drop_last() =~= Seq::<char>::empty());
        reveal_with_fuel(number_said, 2);
    } else {
        decimal_reads_back(n / 10);
        assert(decimal(n).drop_last() =~= decimal(n / 10));
        assert(decimal(n).first() == decimal(n / 10).first());
        assert forall|i: int| 0 <= i < decimal(n).len() implies '0' <= #[trigger] decimal(n)[i]
            <= '9' by {
            if i < decimal(n / 10).len() {
                assert(decimal(n)[i] == decimal(n / 10)[i]);
            }
        }
    }
}

/// A negative number is written as its opposite behind a minus sign, and any
/// other without a sign.
pub proof fn sign_is_written_before_the_digits(n: int)
    ensures
        n < 0 ==> signed_decimal(n).first() == '-' && number_said(signed_decimal(n).drop_first())
            == -n,
        n >= 0 ==> signed_decimal(n).first() != '-' && number_said(signed_decimal(n)) == n,
{
    if n < 0 {
        decimal_reads_back((-n) as nat);
        assert(signed_decimal(n).drop_first() =~= decimal((-n) as nat));
    } else {
        decimal_reads_back(n as nat);
        assert('0' <= decimal(n as nat)[0]);
    }
}

/// Different numbers are written differently.
pub proof fn numbers_are_told_apart(n: int, m: int)
    requires
        signed_decimal(n) == signed_decimal(m),
    ensures
        n == m,
{
    sign_is_written_before_the_digits(n);
    sign_is_written_before_the_digits(m);
}

/// A text is split at the first of a character, which belongs to neither side.
pub proof fn text_is_split_at_the_first(before: Seq<char>, c: char, after: Seq<char>)
    requires
        !before.contains(c),
    ensures
        after_first(before.push(c) + after, c) == Some(after),
        after_first(before, c) is None,
        first_index(before.push(c) + after, c) == before.len(),
        first_index(before, c) == before.len(),
{
    let s = before.push(c) + after;
    assert(s[before.len() as int] == c);
    assert forall|i: int| 0 <= i < before.len() implies s[i] != c by {
        assert(before.contains(before[i]));
    }
    lemma_first_index_is(s, c, before.len());
    assert(s.skip(before.len() as int + 1) =~= after);
    lemma_first_index(before, c);
}

/// The pieces of a text are what stands between its separators, in their
/// order.
pub proof fn pieces_stand_between_separators(piece: Seq<char>, sep: char, rest: Seq<char>)
    requires
        !piece.contains(sep),
    ensures
        pieces(piece, sep) == seq![piece],
        pieces(piece.push(sep) + rest, sep) == seq![piece] + pieces(rest, sep),
{
    text_is_split_at_the_first(piece, sep, rest);
    let s = piece.push(sep) + rest;
    assert(s.take(piece.len() as int) =~= piece);
    assert(s.skip(piece.len() as int + 1) =~= rest);
}

/// The second word of a text is what stands between the white space behind the
/// first and the next white space, however much of that there is.
pub proof fn second_word_stands_between_white_space(
    margin: Seq<char>,
    first: Seq<char>,
    gap: Seq<char>,
    second: Seq<char>,
    rest: Seq<char>,
)
    requires
        forall|i: int| 0 <= i < margin.len() ==> is_white_space(#[trigger] margin[i]),
        forall|i: int| 0 <= i < first.len() ==> !is_white_space(#[trigger] first[i]),
        forall|i: int| 0 <= i < gap.len() ==> is_white_space(#[trigger] gap[i]),
        forall|i: int| 0 <= i < second.len() ==> !is_white_space(#[trigger] second[i]),
        first.len() > 0,
        gap.len() > 0,
        rest.len() > 0 ==> is_white_space(rest[0]),
    ensures
        second.len() > 0 ==> second_word(margin + first + gap + second + rest) == Some(second),
        second_word(margin + first + gap) is None,
        second_word(margin + first) is None,
        second_word(margin) is None,
{
    if second.len() > 0 {
        lemma_second_word(margin, first, gap, second, rest);
    }
    lemma_second_word(margin, first, gap, Seq::empty(), Seq::empty());
    assert(margin + first + gap + Seq::<char>::empty() + Seq::<char>::empty() =~= margin + first
        + gap);
    lemma_leading_is(margin, true, margin.len());
    assert(skip_white(margin) =~= Seq::<char>::empty());
    assert(Seq::<char>::empty().skip(0) =~= Seq::<char>::empty());
    assert(second_word(margin) is None);
    let s = margin + first;
    assert(s[margin.len() as int] == first[0]);
    lemma_leading_is(s, true, margin.len());
    assert(skip_white(s) =~= first);
    lemma_leading_is(first, false, first.len());
    assert(first.skip(first.len() as int) =~= Seq::<char>::empty());
}

proof fn lemma_second_word(
    margin: Seq<char>,
    first: Seq<char>,
    gap: Seq<char>,
    second: Seq<char>,
    rest: Seq<char>,
)
    requires
        forall|i: int| 0 <= i < margin.len() ==> is_white_space(#[trigger] margin[i]),
        forall|i: int| 0 <= i < first.len() ==> !is_white_space(#[trigger] first[i]),
        forall|i: int| 0 <= i < gap.len() ==> is_white_space(#[trigger] gap[i]),
        forall|i: int| 0 <= i < second.len() ==> !is_white_space(#[trigger] second[i]),
        first.len() > 0,
        gap.len() > 0,
        rest.len() > 0 ==> is_white_space(rest[0]),
        second.len() == 0 ==> rest.len() == 0,
    ensures
        second_word(margin + first + gap + second + rest) == (if second.len() > 0 {
            Some(second)
        } else {
            None
        }),
{
    let s = margin + first + gap + second + rest;
    let from_first = first + gap + second + rest;
    let from_gap = gap + second + rest;
    let from_second = second + rest;
    assert(s[margin.len() as int] == first[0]);
    lemma_leading_is(s, true, margin.len());
    assert(skip_white(s) =~= from_first);
    assert(from_first[first.len() as int] == gap[0]);
    lemma_leading_is(from_first, false, first.len());
    assert(from_first.skip(first.len() as int) =~= from_gap);
    if second.len() > 0 {
        assert(from_gap[gap.len() as int] == second[0]);
    }
    lemma_leading_is(from_gap, true, gap.len());
    assert(skip_white(from_gap) =~= from_second);
    if second.len() > 0 {
        if rest.len() > 0 {
            assert(from_second[second.len() as int] == rest[0]);
        }
        lemma_leading_is(from_second, false, second.len());
        assert(from_second.take(second.len() as int) =~= second);
    }
}

} // verus!
