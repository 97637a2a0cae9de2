//! Character-level text utilities shared by the rest of the library.
//!
//! Everything here is specified over `Seq<char>`, the view of `str` and
//! `String`. Executable code first turns a string into a vector of
//! characters, works on that vector, and turns the pieces it cuts out
//! back into strings.

use vstd::prelude::*;
use vstd::string::*;

verus! {

/// The characters of `s`, in order.
pub fn charsOf(s: &str) -> (chars: Vec<char>)
    ensures
        chars@ == s@,
{
    let mut chars: Vec<char> = Vec::new();
    for c in it: s.chars()
        invariant
            it.seq() == s@,
            chars@ == it.seq().take(it.index() as int),
    {
        chars.push(c);
    }
    chars
}

/// Builds a string from a run of characters.
///
/// Trusted: this is `String::from_iter` over the slice's characters, which
/// yields the string made of exactly those characters in that order.
#[verifier::external_body]
pub(crate) fn textOf(chars: &[char]) -> (text: String)
    ensures
        text@ == chars@,
{
    String::from_iter(chars.iter())
}

/// The string made of `chars[from..to]`.
pub fn sliceText(chars: &Vec<char>, from: usize, to: usize) -> (text: String)
    requires
        from <= to <= chars.len(),
    ensures
        text@ == chars@.subrange(from as int, to as int),
{
    textOf(vstd::slice::slice_subrange(chars.as_slice(), from, to))
}

/// The string that `n` is written as in decimal.
pub fn decimalText(n: u128) -> (text: String)
    ensures
        text@ == decimal(n as nat),
{
    textOf(decimalChars(n).as_slice())
}

/// The string that an integer is written as in decimal, with a minus sign
/// where it is negative.
pub fn signedDecimalText(n: i64) -> (text: String)
    ensures
        text@ == signed_decimal(n as int),
{
    textOf(signedDecimalChars(n).as_slice())
}

/// Whether a run of characters spells out `text`.
pub fn charsSpell(chars: &Vec<char>, text: &str) -> (same: bool)
    ensures
        same == (chars@ == text@),
{
    let spelled = textOf(chars.as_slice());
    sameText(spelled.as_str(), text)
}

/// Whether two strings hold the same characters.
pub fn sameText(a: &str, b: &str) -> (same: bool)
    ensures
        same == (a@ == b@),
{
    let left = a.to_owned();
    let right = b.to_owned();
    left == right
}

/// `a` followed by `b`.
pub fn concatText(a: &str, b: &str) -> (text: String)
    ensures
        text@ == a@ + b@,
{
    let mut text = String::from_str(a);
    text.append(b);
    text
}

/// Whether `text` begins with `prefix`.
pub open spec fn starts_with(text: Seq<char>, prefix: Seq<char>) -> bool {
    prefix.len() <= text.len() && text.subrange(0, prefix.len() as int) == prefix
}

/// Whether `text` begins with `prefix`.
pub fn startsWith(text: &Vec<char>, prefix: &Vec<char>) -> (yes: bool)
    ensures
        yes == starts_with(text@, prefix@),
{
    if prefix.len() > text.len() {
        return false;
    }
    let mut i: usize = 0;
    while i < prefix.len()
        invariant
            i <= prefix.len() <= text.len(),
            text@.subrange(0, i as int) == prefix@.subrange(0, i as int),
        decreases prefix.len() - i,
    {
        if text[i] != prefix[i] {
            assert(text@.subrange(0, prefix.len() as int)[i as int] != prefix@[i as int]);
            return false;
        }
        assert(text@.subrange(0, i + 1) == text@.subrange(0, i as int).push(text@[i as int]));
        assert(prefix@.subrange(0, i + 1) == prefix@.subrange(0, i as int).push(
            prefix@[i as int],
        ));
        i += 1;
    }
    assert(prefix@.subrange(0, prefix.len() as int) == prefix@);
    true
}

/// The position of the first `needle` in `text`, or the length of `text`
/// where there is none.
pub open spec fn first_index_of(text: Seq<char>, needle: char) -> int
    decreases text.len(),
{
    if text.len() == 0 || text[0] == needle {
        0
    } else {
        1 + first_index_of(text.drop_first(), needle)
    }
}

/// `first_index_of` is the least position that holds `needle`.
pub proof fn lemma_first_index_of(text: Seq<char>, needle: char)
    ensures
        0 <= first_index_of(text, needle) <= text.len(),
        forall|i: int| 0 <= i < first_index_of(text, needle) ==> text[i] != needle,
        first_index_of(text, needle) < text.len() ==> text[first_index_of(text, needle)]
            == needle,
    decreases text.len(),
{
    if text.len() == 0 || text[0] == needle {
    } else {
        let rest = text.drop_first();
        lemma_first_index_of(rest, needle);
        assert forall|i: int| 0 <= i < first_index_of(text, needle) implies text[i] != needle by {
            if i > 0 {
                assert(text[i] == rest[i - 1]);
            }
        }
    }
}

/// A position that holds `needle` with none before it is `first_index_of`;
/// so is the length of a text that holds none at all.
pub proof fn lemma_first_index_of_is(text: Seq<char>, needle: char, at: int)
    requires
        0 <= at <= text.len(),
        forall|i: int| 0 <= i < at ==> text[i] != needle,
        at < text.len() ==> text[at] == needle,
    ensures
        first_index_of(text, needle) == at,
{
    lemma_first_index_of(text, needle);
}

/// The position of the first `needle` at or after `from`, or the length
/// of `text` where there is none.
pub fn findFrom(text: &Vec<char>, from: usize, needle: char) -> (at: usize)
    requires
        from <= text.len(),
    ensures
        from <= at <= text.len(),
        at == from + first_index_of(text@.skip(from as int), needle),
{
    let mut at: usize = from;
    while at < text.len() && text[at] != needle
        invariant
            from <= at <= text.len(),
            forall|i: int| from <= i < at ==> text@[i] != needle,
        decreases text.len() - at,
    {
        at += 1;
    }
    proof {
        let tail = text@.skip(from as int);
        assert forall|i: int| 0 <= i < at - from implies tail[i] != needle by {
            assert(tail[i] == text@[from + i]);
        }
        lemma_first_index_of_is(tail, needle, at - from);
    }
    at
}

/// A line without the carriage return that may end it.
pub open spec fn strip_cr(line: Seq<char>) -> Seq<char> {
    if line.len() > 0 && line.last() == '\r' {
        line.drop_last()
    } else {
        line
    }
}

/// The lines of a text. A line ends at a line feed, or at a carriage
/// return directly followed by a line feed; neither belongs to the line.
/// What follows the last line feed is a line of its own unless it is
/// empty; a carriage return at the very end of the text stays in it.
pub open spec fn lines_of(text: Seq<char>) -> Seq<Seq<char>>
    decreases text.len(),
{
    let end = first_index_of(text, '\n');
    if text.len() == 0 {
        Seq::empty()
    } else if end < 0 || end >= text.len() {
        seq![text]
    } else {
        seq![strip_cr(text.take(end))] + lines_of(text.skip(end + 1))
    }
}

/// Whether `line` can stand in a text as a line of its own: it holds no
/// line feed and does not end with a carriage return.
pub open spec fn is_line(line: Seq<char>) -> bool {
    &&& forall|i: int| 0 <= i < line.len() ==> line[i] != '\n'
    &&& line.len() > 0 ==> line.last() != '\r'
}

/// The text made of `lines`, each ended by a line feed.
pub open spec fn join_lines(lines: Seq<Seq<char>>) -> Seq<char>
    decreases lines.len(),
{
    if lines.len() == 0 {
        Seq::empty()
    } else {
        lines[0] + seq!['\n'] + join_lines(lines.drop_first())
    }
}

/// A text made of lines is cut into those lines again.
pub proof fn lemma_lines_of_joined(lines: Seq<Seq<char>>)
    requires
        forall|i: int| 0 <= i < lines.len() ==> is_line(#[trigger] lines[i]),
    ensures
        lines_of(join_lines(lines)) == lines,
    decreases lines.len(),
{
    if lines.len() > 0 {
        let first = lines[0];
        let later = lines.drop_first();
        let text = join_lines(lines);
        assert(is_line(first));
        assert forall|i: int| 0 <= i < later.len() implies is_line(#[trigger] later[i]) by {
            assert(later[i] == lines[i + 1]);
        }
        lemma_lines_of_joined(later);
        assert forall|i: int| 0 <= i < first.len() implies text[i] != '\n' by {
            assert(text[i] == first[i]);
        }
        assert(text[first.len() as int] == '\n');
        lemma_first_index_of_is(text, '\n', first.len() as int);
        assert(text.take(first.len() as int) == first);
        assert(text.skip(first.len() as int + 1) == join_lines(later));
        assert(seq![first] + later == lines);
    }
}

/// The lines of `text`, as `str::lines` cuts them.
pub fn splitLines(text: &str) -> (lines: Vec<String>)
    ensures
        lines.deep_view() == lines_of(text@),
{
    let chars = charsOf(text);
    let mut lines: Vec<String> = Vec::new();
    let mut pos: usize = 0;
    assert(chars@.skip(0) == chars@);
    assert(lines.deep_view() == Seq::<Seq<char>>::empty());
    while pos < chars.len()
        invariant
            pos <= chars.len(),
            lines_of(chars@) == lines.deep_view() + lines_of(chars@.skip(pos as int)),
        decreases chars.len() - pos,
    {
        let ghost tail = chars@.skip(pos as int);
        let ghost before = lines.deep_view();
        let end = findFrom(&chars, pos, '\n');
        if end == chars.len() {
            let line = sliceText(&chars, pos, end);
            assert(line@ == tail);
            lines.push(line);
            assert(lines.deep_view() == before.push(tail));
            pos = end;
            assert(lines_of(chars@.skip(pos as int)) == Seq::<Seq<char>>::empty());
            assert(before + seq![tail] == before.push(tail));
        } else {
            let stop = if end > pos && chars[end - 1] == '\r' {
                end - 1
            } else {
                end
            };
            let line = sliceText(&chars, pos, stop);
            assert(tail.take(end - pos) == chars@.subrange(pos as int, end as int));
            assert(line@ == strip_cr(tail.take(end - pos)));
            assert(tail.skip(end - pos + 1) == chars@.skip(end + 1));
            lines.push(line);
            assert(lines.deep_view() == before.push(strip_cr(tail.take(end - pos))));
            pos = end + 1;
            assert(before + (seq![strip_cr(tail.take(end - pos))] + lines_of(
                chars@.skip(pos as int),
            )) == before.push(strip_cr(tail.take(end - pos))) + lines_of(
                chars@.skip(pos as int),
            ));
        }
    }
    assert(lines_of(chars@.skip(pos as int)) == Seq::<Seq<char>>::empty());
    assert(lines.deep_view() + Seq::<Seq<char>>::empty() == lines.deep_view());
    lines
}

/// The characters of `chars` in the opposite order.
pub fn reversed(chars: &Vec<char>) -> (back: Vec<char>)
    ensures
        back@ == chars@.reverse(),
{
    let mut back: Vec<char> = Vec::new();
    let mut left: usize = chars.len();
    while left > 0
        invariant
            left <= chars.len(),
            back.len() == chars.len() - left,
            forall|i: int| 0 <= i < back.len() ==> back@[i] == chars@[chars.len() - 1 - i],
        decreases left,
    {
        left -= 1;
        back.push(chars[left]);
    }
    back
}

/// The character that writes the digit `d`.
pub open spec fn digit_char(d: int) -> char {
    ((d + 48) as u8) as char
}

/// The character that writes the digit `d`.
pub fn digitChar(d: u8) -> (c: char)
    requires
        d < 10,
    ensures
        c == digit_char(d as int),
{
    (d + 48) as char
}

/// The decimal digits of `n`, most significant first; nothing for zero.
pub open spec fn decimal_prefix(n: nat) -> Seq<char>
    decreases n,
{
    if n == 0 {
        Seq::empty()
    } else {
        decimal_prefix(n / 10).push(digit_char((n % 10) as int))
    }
}

/// `n` written in decimal, without sign or padding.
pub open spec fn decimal(n: nat) -> Seq<char> {
    decimal_prefix(n / 10).push(digit_char((n % 10) as int))
}

/// An integer written in decimal, with a minus sign where it is negative.
pub open spec fn signed_decimal(n: int) -> Seq<char> {
    if n < 0 {
        seq!['-'] + decimal((-n) as nat)
    } else {
        decimal(n as nat)
    }
}

/// `n` written in decimal with at least two digits.
pub open spec fn two_digits(n: nat) -> Seq<char> {
    if n < 10 {
        seq!['0'] + decimal(n)
    } else {
        decimal(n)
    }
}

/// The characters of `n` written in decimal.
pub fn decimalChars(n: u128) -> (chars: Vec<char>)
    ensures
        chars@ == decimal(n as nat),
{
    let mut low_first: Vec<char> = Vec::new();
    low_first.push(digitChar((n % 10) as u8));
    let mut rest: u128 = n / 10;
    assert(decimal_prefix(n as nat / 10) + low_first@.reverse() == decimal(n as nat));
    while rest > 0
        invariant
            decimal_prefix(rest as nat) + low_first@.reverse() == decimal(n as nat),
        decreases rest,
    {
        let ghost before = low_first@;
        let digit = digitChar((rest % 10) as u8);
        low_first.push(digit);
        proof {
            assert(low_first@.reverse() == seq![digit] + before.reverse());
            assert(decimal_prefix(rest as nat) == decimal_prefix(rest as nat / 10).push(digit));
            assert(decimal_prefix(rest as nat / 10).push(digit) + before.reverse()
                == decimal_prefix(rest as nat / 10) + (seq![digit] + before.reverse()));
        }
        rest = rest / 10;
    }
    let chars = reversed(&low_first);
    assert(decimal_prefix(0) + low_first@.reverse() == low_first@.reverse());
    chars
}

/// The characters of `n` written in decimal with at least two digits.
pub fn twoDigitChars(n: u128) -> (chars: Vec<char>)
    ensures
        chars@ == two_digits(n as nat),
{
    let digits = decimalChars(n);
    if n < 10 {
        let mut chars: Vec<char> = Vec::new();
        chars.push('0');
        chars.push(digits[0]);
        assert(chars@ == seq!['0'] + digits@);
        chars
    } else {
        digits
    }
}

/// The characters of an integer written in decimal, with a minus sign
/// where it is negative.
pub fn signedDecimalChars(n: i64) -> (chars: Vec<char>)
    ensures
        chars@ == signed_decimal(n as int),
{
    if n < 0 {
        let magnitude: u128 = (-(n + 1)) as u128 + 1;
        let mut digits = decimalChars(magnitude);
        let mut chars: Vec<char> = Vec::new();
        chars.push('-');
        chars.append(&mut digits);
        chars
    } else {
        decimalChars(n as u128)
    }
}

/// The lower-case form of an ASCII capital letter; any other character
/// unchanged.
pub open spec fn lower_char(c: char) -> char {
    if 'A' <= c <= 'Z' {
        ((c as u8) + 32) as char
    } else {
        c
    }
}

/// `text` with each ASCII capital letter replaced by its lower-case form.
pub open spec fn ascii_lower(text: Seq<char>) -> Seq<char> {
    Seq::new(text.len(), |i: int| lower_char(text[i]))
}

/// `text` with each ASCII capital letter replaced by its lower-case form,
/// as `str::to_ascii_lowercase` gives it.
pub fn lowerChars(text: &str) -> (lower: Vec<char>)
    ensures
        lower@ == ascii_lower(text@),
{
    let chars = charsOf(text);
    let mut lower: Vec<char> = Vec::new();
    let mut i: usize = 0;
    while i < chars.len()
        invariant
            i <= chars.len(),
            chars@ == text@,
            lower.len() == i,
            forall|k: int| 0 <= k < i ==> lower@[k] == lower_char(chars@[k]),
        decreases chars.len() - i,
    {
        let c = chars[i];
        if 'A' <= c && c <= 'Z' {
            lower.push(((c as u8) + 32) as char);
        } else {
            lower.push(c);
        }
        i += 1;
    }
    lower
}

/// The last `width` decimal digits of `n`, with zeros in front where `n`
/// has fewer.
pub open spec fn fixed_digits(n: nat, width: nat) -> Seq<char>
    decreases width,
{
    if width == 0 {
        Seq::empty()
    } else {
        fixed_digits(n / 10, (width - 1) as nat).push(digit_char((n % 10) as int))
    }
}

/// The last `width` decimal digits of `n`, with zeros in front where `n`
/// has fewer.
pub fn fixedDigitChars(n: u128, width: usize) -> (chars: Vec<char>)
    ensures
        chars@ == fixed_digits(n as nat, width as nat),
{
    let mut low_first: Vec<char> = Vec::new();
    let mut rest: u128 = n;
    assert(fixed_digits(rest as nat, width as nat) + low_first@.reverse() == fixed_digits(
        n as nat,
        width as nat,
    ));
    while low_first.len() < width
        invariant
            low_first.len() <= width,
            fixed_digits(rest as nat, (width - low_first.len()) as nat) + low_first@.reverse()
                == fixed_digits(n as nat, width as nat),
        decreases width - low_first.len(),
    {
        let ghost before = low_first@;
        let ghost left = (width - low_first.len()) as nat;
        let digit = digitChar((rest % 10) as u8);
        low_first.push(digit);
        proof {
            assert(low_first@.reverse() == seq![digit] + before.reverse());
            assert(fixed_digits(rest as nat, left) == fixed_digits(
                rest as nat / 10,
                (left - 1) as nat,
            ).push(digit));
            assert(fixed_digits(rest as nat / 10, (left - 1) as nat).push(digit)
                + before.reverse() == fixed_digits(rest as nat / 10, (left - 1) as nat) + (
            seq![digit] + before.reverse()));
        }
        rest = rest / 10;
    }
    let chars = reversed(&low_first);
    assert(fixed_digits(rest as nat, 0) + low_first@.reverse() == low_first@.reverse());
    chars
}

} // verus!
