//! Text as sequences of characters: the few operations on strings that the
//! calculator's rules are stated in.

use vstd::prelude::*;

verus! {

/// Whether a character is white space: one of the characters that Unicode
/// marks `White_Space`.
pub open spec fn is_whitespace(c: char) -> bool {
    ||| '\u{9}' <= c <= '\u{d}'
    ||| c == ' '
    ||| c == '\u{85}'
    ||| c == '\u{a0}'
    ||| c == '\u{1680}'
    ||| '\u{2000}' <= c <= '\u{200a}'
    ||| c == '\u{2028}'
    ||| c == '\u{2029}'
    ||| c == '\u{202f}'
    ||| c == '\u{205f}'
    ||| c == '\u{3000}'
}

/// Whether a character is white space.
pub fn whitespace(c: char) -> (yes: bool)
    ensures
        yes == is_whitespace(c),
{
    ('\u{9}' <= c && c <= '\u{d}') || c == ' ' || c == '\u{85}' || c == '\u{a0}' || c
        == '\u{1680}' || ('\u{2000}' <= c && c <= '\u{200a}') || c == '\u{2028}' || c
        == '\u{2029}' || c == '\u{202f}' || c == '\u{205f}' || c == '\u{3000}'
}

/// The characters of a string, in order.
pub fn chars_of(text: &str) -> (chars: Vec<char>)
    ensures
        chars@ == text@,
{
    let mut chars: Vec<char> = Vec::new();
    let mut rest = text.chars();
    for c in iter: rest
        invariant
            chars@ == iter.seq().take(iter.index()),
            iter.seq() == text@,
    {
        chars.push(c);
    }
    chars
}

/// `String::push`: the character is appended to the end of the string.
pub assume_specification[ String::push ](text: &mut String, c: char)
    ensures
        final(text)@ == old(text)@.push(c),
;

/// `String::pop`: the last character leaves the string and is returned;
/// an empty string stays empty and gives `None`.
pub assume_specification[ String::pop ](text: &mut String) -> (last: Option<char>)
    ensures
        old(text)@.len() == 0 ==> last is None && final(text)@ == old(text)@,
        old(text)@.len() > 0 ==> last == Some(old(text)@.last()) && final(text)@ == old(
            text,
        )@.drop_last(),
;

/// `String::clear`: the string is emptied.
pub assume_specification[ String::clear ](text: &mut String)
    ensures
        final(text)@ == Seq::<char>::empty(),
;

/// A text without the white space it begins with.
pub open spec fn trim_start(text: Seq<char>) -> Seq<char>
    decreases text.len(),
{
    if text.len() > 0 && is_whitespace(text.first()) {
        trim_start(text.drop_first())
    } else {
        text
    }
}

/// A text without the white space it ends with.
pub open spec fn trim_end(text: Seq<char>) -> Seq<char>
    decreases text.len(),
{
    if text.len() > 0 && is_whitespace(text.last()) {
        trim_end(text.drop_last())
    } else {
        text
    }
}

/// A text without the white space at either end.
pub open spec fn trim(text: Seq<char>) -> Seq<char> {
    trim_end(trim_start(text))
}

/// The place of the last occurrence of a character in a text.
pub open spec fn last_index_of(text: Seq<char>, c: char) -> Option<int>
    decreases text.len(),
{
    if text.len() == 0 {
        None
    } else if text.last() == c {
        Some(text.len() - 1)
    } else {
        last_index_of(text.drop_last(), c)
    }
}

/// Whether a text holds a pattern as a run of neighbouring characters.
pub open spec fn contains(text: Seq<char>, pattern: Seq<char>) -> bool {
    exists|at: int| occurs_at(text, pattern, at)
}

/// Whether a pattern stands in a text at a place.
pub open spec fn occurs_at(text: Seq<char>, pattern: Seq<char>, at: int) -> bool {
    0 <= at && at + pattern.len() <= text.len() && text.subrange(at, at + pattern.len())
        == pattern
}

/// A text with every occurrence of one character replaced by another.
pub open spec fn replace_char(text: Seq<char>, from: char, to: char) -> Seq<char> {
    Seq::new(text.len(), |i: int| if text[i] == from { to } else { text[i] })
}

/// Where a text begins with this many white-space characters and no more,
/// trimming its start skips exactly them.
pub proof fn trim_start_skips(text: Seq<char>, count: int)
    requires
        0 <= count <= text.len(),
        forall|i: int| 0 <= i < count ==> is_whitespace(#[trigger] text[i]),
        count == text.len() || !is_whitespace(text[count]),
    ensures
        trim_start(text) == text.skip(count),
    decreases count,
{
    if count > 0 {
        trim_start_skips(text.drop_first(), count - 1);
    }
}

/// Where a text ends with this many white-space characters and no more,
/// trimming its end drops exactly them.
pub proof fn trim_end_keeps(text: Seq<char>, kept: int)
    requires
        0 <= kept <= text.len(),
        forall|i: int| kept <= i < text.len() ==> is_whitespace(#[trigger] text[i]),
        kept == 0 || !is_whitespace(text[kept - 1]),
    ensures
        trim_end(text) == text.take(kept),
    decreases text.len() - kept,
{
    if kept < text.len() {
        trim_end_keeps(text.drop_last(), kept);
    }
}

/// The last occurrence of a character is where the character stands with
/// none after it.
pub proof fn last_index_is(text: Seq<char>, c: char, at: int)
    requires
        0 <= at < text.len(),
        text[at] == c,
        forall|i: int| at < i < text.len() ==> #[trigger] text[i] != c,
    ensures
        last_index_of(text, c) == Some(at),
    decreases text.len(),
{
    if at < text.len() - 1 {
        last_index_is(text.drop_last(), c, at);
    }
}

/// A character that stands nowhere in a text has no last occurrence.
pub proof fn last_index_is_none(text: Seq<char>, c: char)
    requires
        forall|i: int| 0 <= i < text.len() ==> #[trigger] text[i] != c,
    ensures
        last_index_of(text, c) is None,
    decreases text.len(),
{
    if text.len() > 0 {
        last_index_is_none(text.drop_last(), c);
    }
}

/// The first place at or after `from` and before `to` that holds no white
/// space, or `to`.
pub fn skip_whitespace(chars: &Vec<char>, from: usize, to: usize) -> (start: usize)
    requires
        from <= to <= chars.len(),
    ensures
        from <= start <= to,
        chars@.subrange(start as int, to as int) == trim_start(
            chars@.subrange(from as int, to as int),
        ),
{
    let mut start = from;
    while start < to && whitespace(chars[start])
        invariant
            from <= start <= to <= chars.len(),
            forall|i: int| from <= i < start ==> is_whitespace(#[trigger] chars@[i]),
        decreases to - start,
    {
        start += 1;
    }
    proof {
        let part = chars@.subrange(from as int, to as int);
        trim_start_skips(part, start - from);
    }
    start
}

/// The place after the last character before `to` and at or after `from`
/// that is no white space, or `from`.
pub fn skip_whitespace_back(chars: &Vec<char>, from: usize, to: usize) -> (end: usize)
    requires
        from <= to <= chars.len(),
    ensures
        from <= end <= to,
        chars@.subrange(from as int, end as int) == trim_end(
            chars@.subrange(from as int, to as int),
        ),
{
    let mut end = to;
    while end > from && whitespace(chars[end - 1])
        invariant
            from <= end <= to <= chars.len(),
            forall|i: int| end <= i < to ==> is_whitespace(#[trigger] chars@[i]),
        decreases end - from,
    {
        end -= 1;
    }
    proof {
        let part = chars@.subrange(from as int, to as int);
        trim_end_keeps(part, end - from);
    }
    end
}

/// The last place before `to` and at or after `from` that holds the
/// character.
pub fn rfind(chars: &Vec<char>, from: usize, to: usize, c: char) -> (found: Option<usize>)
    requires
        from <= to <= chars.len(),
    ensures
        (match found {
            Some(at) => from <= at < to && last_index_of(
                chars@.subrange(from as int, to as int),
                c,
            ) == Some(at - from),
            None => last_index_of(chars@.subrange(from as int, to as int), c) is None,
        }),
{
    let ghost part = chars@.subrange(from as int, to as int);
    let mut at = to;
    while at > from
        invariant
            from <= at <= to <= chars.len(),
            part == chars@.subrange(from as int, to as int),
            forall|i: int| at <= i < to ==> #[trigger] chars@[i] != c,
        decreases at - from,
    {
        at -= 1;
        if chars[at] == c {
            proof {
                last_index_is(part, c, at - from);
            }
            return Some(at);
        }
    }
    proof {
        last_index_is_none(part, c);
    }
    None
}

/// Whether the characters from `from` up to `to` begin with a prefix.
pub fn starts_with(chars: &Vec<char>, from: usize, to: usize, prefix: &Vec<char>) -> (yes: bool)
    requires
        from <= to <= chars.len(),
    ensures
        yes == prefix@.is_prefix_of(chars@.subrange(from as int, to as int)),
{
    let ghost part = chars@.subrange(from as int, to as int);
    if prefix.len() > to - from {
        return false;
    }
    let mut i: usize = 0;
    while i < prefix.len()
        invariant
            i <= prefix.len() <= to - from,
            from <= to <= chars.len(),
            part == chars@.subrange(from as int, to as int),
            forall|j: int| 0 <= j < i ==> prefix@[j] == #[trigger] part[j],
        decreases prefix.len() - i,
    {
        if prefix[i] != chars[from + i] {
            return false;
        }
        i += 1;
    }
    true
}

/// Whether a pattern occurs in the characters.
pub fn holds(chars: &Vec<char>, pattern: &Vec<char>) -> (yes: bool)
    ensures
        yes == contains(chars@, pattern@),
{
    if pattern.len() > chars.len() {
        return false;
    }
    let last = chars.len() - pattern.len();
    let mut at: usize = 0;
    while at <= last
        invariant
            at <= last + 1,
            last == chars.len() - pattern.len(),
            forall|before: int| 0 <= before < at ==> !occurs_at(chars@, pattern@, before),
        decreases last + 1 - at,
    {
        if starts_with(chars, at, chars.len(), pattern) {
            proof {
                let part = chars@.subrange(at as int, chars.len() as int);
                assert(part.subrange(0, pattern@.len() as int) =~= chars@.subrange(
                    at as int,
                    at + pattern@.len(),
                ));
                assert(occurs_at(chars@, pattern@, at as int));
            }
            return true;
        }
        proof {
            let part = chars@.subrange(at as int, chars.len() as int);
        }
        at += 1;
    }
    false
}

/// The characters from `from` up to `to` as a string.
pub fn string_of(chars: &Vec<char>, from: usize, to: usize) -> (text: String)
    requires
        from <= to <= chars.len(),
    ensures
        text@ == chars@.subrange(from as int, to as int),
{
    let mut text = String::new();
    let mut at = from;
    while at < to
        invariant
            from <= at <= to <= chars.len(),
            text@ == chars@.subrange(from as int, at as int),
        decreases to - at,
    {
        text.push(chars[at]);
        at += 1;
    }
    text
}

/// The character of a decimal digit.
pub open spec fn digit(value: int) -> char {
    if value == 0 {
        '0'
    } else if value == 1 {
        '1'
    } else if value == 2 {
        '2'
    } else if value == 3 {
        '3'
    } else if value == 4 {
        '4'
    } else if value == 5 {
        '5'
    } else if value == 6 {
        '6'
    } else if value == 7 {
        '7'
    } else if value == 8 {
        '8'
    } else {
        '9'
    }
}

/// A natural number in decimal digits, without leading zeros.
pub open spec fn digits(value: nat) -> Seq<char>
    decreases value,
{
    if value < 10 {
        seq![digit(value as int)]
    } else {
        digits(value / 10).push(digit((value % 10) as int))
    }
}

/// An integer in decimal digits, with a hyphen before a negative one.
pub open spec fn decimal(value: int) -> Seq<char> {
    if value < 0 {
        seq!['-'] + digits((-value) as nat)
    } else {
        digits(value as nat)
    }
}

/// The character of a decimal digit.
fn digit_char(value: u64) -> (c: char)
    requires
        value < 10,
    ensures
        c == digit(value as int),
{
    if value == 0 {
        '0'
    } else if value == 1 {
        '1'
    } else if value == 2 {
        '2'
    } else if value == 3 {
        '3'
    } else if value == 4 {
        '4'
    } else if value == 5 {
        '5'
    } else if value == 6 {
        '6'
    } else if value == 7 {
        '7'
    } else if value == 8 {
        '8'
    } else {
        '9'
    }
}

/// An integer in decimal digits, with a hyphen before a negative one.
pub fn decimal_text(number: i32) -> (text: String)
    ensures
        text@ == decimal(number as int),
{
    let wide: i64 = number as i64;
    let magnitude: u64 = if wide < 0 {
        (-wide) as u64
    } else {
        wide as u64
    };
    let mut low: Vec<char> = Vec::new();
    let mut rest = magnitude;
    while rest >= 10
        invariant
            digits(magnitude as nat) == digits(rest as nat) + low@.reverse(),
        decreases rest,
    {
        let c = digit_char(rest % 10);
        low.push(c);
        rest = rest / 10;
    }
    let mut text = String::new();
    if wide < 0 {
        text.push('-');
    }
    let ghost sign = text@;
    text.push(digit_char(rest));
    let mut left = low.len();
    while left > 0
        invariant
            left <= low.len(),
            text@ == sign + digits(rest as nat) + low@.reverse().take(low.len() - left),
        decreases left,
    {
        left -= 1;
        text.push(low[left]);
    }
    text
}

} // verus!
