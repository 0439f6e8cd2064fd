//! Text helpers over `Seq<char>` views: the few string operations the rest of
//! the crate needs, each with an exact contract.

use vstd::prelude::*;

verus! {

/// `str::eq` of the standard library: two string slices are equal exactly
/// when they hold the same characters.
pub assume_specification[ <str as PartialEq>::eq ](a: &str, b: &str) -> (r: bool)
    ensures
        r == (a@ == b@),
;

/// What `str::to_lowercase` returns for a text.
pub uninterp spec fn lowercase_of(text: Seq<char>) -> Seq<char>;

/// What `str::to_uppercase` returns for a text.
pub uninterp spec fn uppercase_of(text: Seq<char>) -> Seq<char>;

/// What `char::is_whitespace` returns for a character.
pub uninterp spec fn is_whitespace(c: char) -> bool;

/// Calls `str::to_lowercase`, which maps a text to its Unicode lowercase
/// form. The contract only names that form.
#[verifier::external_body]
pub(crate) fn to_lowercase(text: &str) -> (lowered: String)
    ensures
        lowered@ == lowercase_of(text@),
{
    text.to_lowercase()
}

/// Calls `str::to_uppercase`, which maps a text to its Unicode uppercase
/// form. The contract only names that form.
#[verifier::external_body]
pub(crate) fn to_uppercase(text: &str) -> (raised: String)
    ensures
        raised@ == uppercase_of(text@),
{
    text.to_uppercase()
}

/// Calls `char::is_whitespace`, which tells whether a character has the
/// Unicode property White_Space. The contract only names the answer.
#[verifier::external_body]
pub(crate) fn char_is_whitespace(c: char) -> (r: bool)
    ensures
        r == is_whitespace(c),
{
    c.is_whitespace()
}

/// Calls `String::push`, which appends one character to the string.
#[verifier::external_body]
pub(crate) fn push_char(out: &mut String, c: char)
    ensures
        final(out)@ == old(out)@.push(c),
{
    out.push(c)
}

/// The views of a sequence of strings.
pub open spec fn views(items: Seq<String>) -> Seq<Seq<char>> {
    Seq::new(items.len(), |i: int| items[i]@)
}

/// The view of an optional string.
pub open spec fn opt_view(item: Option<String>) -> Option<Seq<char>> {
    match item {
        Some(s) => Some(s@),
        None => None,
    }
}

/// `needle` occurs in `text` as a contiguous run of characters.
pub open spec fn occurs_in(needle: Seq<char>, text: Seq<char>) -> bool {
    exists|i: int| occurs_at(needle, text, i)
}

/// `needle` occurs in `text` at position `i`.
pub open spec fn occurs_at(needle: Seq<char>, text: Seq<char>, i: int) -> bool {
    0 <= i && i + needle.len() <= text.len() && text.subrange(i, i + needle.len()) == needle
}

/// The characters of a text, one by one.
pub fn chars_of(text: &str) -> (chars: Vec<char>)
    ensures
        chars@ == text@,
{
    let mut chars: Vec<char> = Vec::new();
    for c in it: text.chars()
        invariant
            chars@ == it.seq().take(it.index() as int),
            it.seq() == text@,
    {
        chars.push(c);
    }
    chars
}

/// The text made of `chars[from..to]`.
pub fn string_of(chars: &Vec<char>, from: usize, to: usize) -> (text: String)
    requires
        from <= to <= chars.len(),
    ensures
        text@ == chars@.subrange(from as int, to as int),
{
    let mut text = String::new();
    let mut i: usize = from;
    while i < to
        invariant
            from <= i <= to <= chars.len(),
            text@ == chars@.subrange(from as int, i as int),
        decreases to - i,
    {
        push_char(&mut text, chars[i]);
        i += 1;
    }
    text
}

/// Whether two texts hold the same characters.
pub fn text_eq(a: &str, b: &str) -> (r: bool)
    ensures
        r == (a@ == b@),
{
    *a == *b
}

/// Whether `text` begins with `prefix`.
pub fn starts_with(text: &str, prefix: &str) -> (r: bool)
    ensures
        r == prefix@.is_prefix_of(text@),
{
    let t = chars_of(text);
    let p = chars_of(prefix);
    if p.len() > t.len() {
        return false;
    }
    let mut i: usize = 0;
    while i < p.len()
        invariant
            i <= p.len() <= t.len(),
            t@ == text@,
            p@ == prefix@,
            forall|k: int| 0 <= k < i ==> t@[k] == p@[k],
        decreases p.len() - i,
    {
        if t[i] != p[i] {
            assert(t@.subrange(0, p@.len() as int)[i as int] != p@[i as int]);
            return false;
        }
        i += 1;
    }
    assert(t@.subrange(0, p@.len() as int) =~= p@);
    true
}

/// Whether `needle` occurs somewhere in `text`. The empty needle occurs in
/// every text.
pub fn contains(text: &str, needle: &str) -> (r: bool)
    ensures
        r == occurs_in(needle@, text@),
{
    let t = chars_of(text);
    let n = chars_of(needle);
    if n.len() > t.len() {
        return false;
    }
    let last: usize = t.len() - n.len();
    let mut start: usize = 0;
    while start <= last
        invariant
            last == t.len() - n.len(),
            start <= last + 1,
            t@ == text@,
            n@ == needle@,
            forall|k: int| 0 <= k < start ==> !occurs_at(n@, t@, k),
        decreases last + 1 - start,
    {
        let mut j: usize = 0;
        while j < n.len() && t[start + j] == n[j]
            invariant
                j <= n.len(),
                start <= last,
                last == t.len() - n.len(),
                forall|k: int| 0 <= k < j ==> t@[start + k] == n@[k],
            decreases n.len() - j,
        {
            j += 1;
        }
        if j == n.len() {
            assert(t@.subrange(start as int, start + n@.len()) =~= n@);
            assert(occurs_at(n@, t@, start as int));
            return true;
        }
        assert(!occurs_at(n@, t@, start as int)) by {
            if occurs_at(n@, t@, start as int) {
                assert(t@.subrange(start as int, start + n@.len())[j as int] == n@[j as int]);
            }
        }
        start += 1;
    }
    false
}

/// For every character of a text, whether it is whitespace.
pub open spec fn blanks(text: Seq<char>) -> Seq<bool> {
    Seq::new(text.len(), |i: int| is_whitespace(text[i]))
}

/// The first position at or after `from` that is not blank, or the number
/// of positions when there is none.
pub open spec fn content_start(blank: Seq<bool>, from: int) -> int
    decreases blank.len() - from,
{
    if from < 0 || from >= blank.len() {
        blank.len() as int
    } else if !blank[from] {
        from
    } else {
        content_start(blank, from + 1)
    }
}

/// One past the last position before `to` that is not blank, or 0 when
/// there is none.
pub open spec fn content_end(blank: Seq<bool>, to: int) -> int
    decreases to,
{
    if to <= 0 || to > blank.len() {
        0
    } else if !blank[to - 1] {
        to
    } else {
        content_end(blank, to - 1)
    }
}

/// A text without its leading and trailing whitespace.
pub open spec fn trimmed(text: Seq<char>) -> Seq<char> {
    let start = content_start(blanks(text), 0);
    let end = content_end(blanks(text), text.len() as int);
    if start < end {
        text.subrange(start, end)
    } else {
        Seq::empty()
    }
}

/// The first position at or after `from` that holds `c`, or the length of the
/// text when there is none.
pub open spec fn position_of(text: Seq<char>, c: char, from: int) -> int
    decreases text.len() - from,
{
    if from < 0 || from >= text.len() {
        text.len() as int
    } else if text[from] == c {
        from
    } else {
        position_of(text, c, from + 1)
    }
}

/// The two parts of a text around the first occurrence of `sep`, or `None`
/// when `sep` does not occur.
pub open spec fn split_at_first(text: Seq<char>, sep: char) -> Option<(Seq<char>, Seq<char>)> {
    let at = position_of(text, sep, 0);
    if at < text.len() {
        Some((text.subrange(0, at), text.subrange(at + 1, text.len() as int)))
    } else {
        None
    }
}

/// Where the content of a text begins and ends, given for every character
/// whether it is blank: the first position that is not blank, and one past
/// the last.
pub fn content_bounds(blank: &Vec<bool>) -> (bounds: (usize, usize))
    ensures
        bounds.0 == content_start(blank@, 0),
        bounds.1 == content_end(blank@, blank@.len() as int),
        bounds.0 <= blank@.len(),
        bounds.1 <= blank@.len(),
{
    let mut start: usize = 0;
    while start < blank.len() && blank[start]
        invariant
            start <= blank.len(),
            content_start(blank@, 0) == content_start(blank@, start as int),
        decreases blank.len() - start,
    {
        start += 1;
    }
    let mut end: usize = blank.len();
    while end > 0 && blank[end - 1]
        invariant
            end <= blank.len(),
            content_end(blank@, blank@.len() as int) == content_end(blank@, end as int),
        decreases end,
    {
        end -= 1;
    }
    (start, end)
}

/// Removes leading and trailing whitespace, as `char::is_whitespace` tells
/// it.
pub fn trim(text: &str) -> (out: String)
    ensures
        out@ == trimmed(text@),
{
    let chars = chars_of(text);
    let mut blank: Vec<bool> = Vec::new();
    let mut i: usize = 0;
    while i < chars.len()
        invariant
            i <= chars.len(),
            chars@ == text@,
            blank@ == blanks(text@).take(i as int),
        decreases chars.len() - i,
    {
        blank.push(char_is_whitespace(chars[i]));
        assert(blank@ =~= blanks(text@).take(i + 1));
        i += 1;
    }
    assert(blank@ =~= blanks(text@));
    let (start, end) = content_bounds(&blank);
    if start < end {
        string_of(&chars, start, end)
    } else {
        String::new()
    }
}

/// Splits a text at the first occurrence of `sep`.
pub fn split_once(text: &str, sep: char) -> (parts: Option<(String, String)>)
    ensures
        match parts {
            Some((head, tail)) => split_at_first(text@, sep) == Some((head@, tail@)),
            None => split_at_first(text@, sep) is None,
        },
{
    let chars = chars_of(text);
    let mut at: usize = 0;
    while at < chars.len() && chars[at] != sep
        invariant
            at <= chars.len(),
            chars@ == text@,
            position_of(text@, sep, 0) == position_of(text@, sep, at as int),
        decreases chars.len() - at,
    {
        at += 1;
    }
    if at < chars.len() {
        let head = string_of(&chars, 0, at);
        let tail = string_of(&chars, at + 1, chars.len());
        Some((head, tail))
    } else {
        None
    }
}

/// The character that writes the digit `d`.
pub open spec fn digit_char(d: nat) -> char {
    if d == 0 {
        '0'
    } else if d == 1 {
        '1'
    } else if d == 2 {
        '2'
    } else if d == 3 {
        '3'
    } else if d == 4 {
        '4'
    } else if d == 5 {
        '5'
    } else if d == 6 {
        '6'
    } else if d == 7 {
        '7'
    } else if d == 8 {
        '8'
    } else {
        '9'
    }
}

/// The digit that a character writes, if it is one of `0` to `9`.
pub open spec fn digit_value(c: char) -> Option<nat> {
    if c == '0' {
        Some(0)
    } else if c == '1' {
        Some(1)
    } else if c == '2' {
        Some(2)
    } else if c == '3' {
        Some(3)
    } else if c == '4' {
        Some(4)
    } else if c == '5' {
        Some(5)
    } else if c == '6' {
        Some(6)
    } else if c == '7' {
        Some(7)
    } else if c == '8' {
        Some(8)
    } else if c == '9' {
        Some(9)
    } else {
        None
    }
}

/// A natural number in decimal, without leading zeros.
pub open spec fn decimal(n: nat) -> Seq<char>
    decreases n,
{
    if n < 10 {
        seq![digit_char(n)]
    } else {
        decimal(n / 10).push(digit_char(n % 10))
    }
}

/// An integer in decimal, with `-` before a negative one.
pub open spec fn signed_decimal(n: int) -> Seq<char> {
    if n < 0 {
        seq!['-'] + decimal((-n) as nat)
    } else {
        decimal(n as nat)
    }
}

/// The text of one digit.

fn digit_text(d: u64) -> (text: &'static str)
    requires
        d < 10,
    ensures
        text@ == seq![digit_char(d as nat)],
{
    proof {
        reveal_strlit("0");
        reveal_strlit("1");
        reveal_strlit("2");
        reveal_strlit("3");
        reveal_strlit("4");
        reveal_strlit("5");
        reveal_strlit("6");
        reveal_strlit("7");
        reveal_strlit("8");
        reveal_strlit("9");
    }
    let text = if d == 0 {
        "0"
    } else if d == 1 {
        "1"
    } else if d == 2 {
        "2"
    } else if d == 3 {
        "3"
    } else if d == 4 {
        "4"
    } else if d == 5 {
        "5"
    } else if d == 6 {
        "6"
    } else if d == 7 {
        "7"
    } else if d == 8 {
        "8"
    } else {
        "9"
    };
    assert(text@ =~= seq![digit_char(d as nat)]);
    text
}

/// Appends `n` in decimal to `out`.
pub fn push_decimal(out: &mut String, n: u64)
    ensures
        final(out)@ == old(out)@ + decimal(n as nat),
    decreases n,
{
    if n >= 10 {
        push_decimal(out, n / 10);
    }
    out.append(digit_text(n % 10));
    assert(out@ =~= old(out)@ + decimal(n as nat));
}

/// `n` in decimal.
pub fn decimal_string(n: u64) -> (out: String)
    ensures
        out@ == decimal(n as nat),
{
    let mut out = String::new();
    push_decimal(&mut out, n);
    assert(out@ =~= decimal(n as nat));
    out
}

/// Appends `n` in decimal to `out`, with `-` before a negative number.
pub fn push_signed_decimal(out: &mut String, n: i64)
    ensures
        final(out)@ == old(out)@ + signed_decimal(n as int),
{
    if n < 0 {
        proof {
            reveal_strlit("-");
        }
        out.append("-");
        let magnitude: u64 = if n == i64::MIN {
            9223372036854775808u64
        } else {
            (-n) as u64
        };
        push_decimal(out, magnitude);
        assert(out@ =~= old(out)@ + signed_decimal(n as int));
    } else {
        push_decimal(out, n as u64);
    }
}

/// Whether every character is one of `0` to `9`.
pub open spec fn all_digits(text: Seq<char>) -> bool {
    forall|i: int| 0 <= i < text.len() ==> (#[trigger] digit_value(text[i])) is Some
}

/// The number that a run of digits writes; leading zeros count for nothing.
pub open spec fn digits_value(text: Seq<char>) -> nat
    decreases text.len(),
{
    if text.len() == 0 {
        0
    } else {
        match digit_value(text.last()) {
            Some(d) => digits_value(text.drop_last()) * 10 + d,
            None => digits_value(text.drop_last()) * 10,
        }
    }
}

/// A text without the `+` it may begin with.
pub open spec fn without_plus(text: Seq<char>) -> Seq<char> {
    if text.len() > 0 && text[0] == '+' {
        text.skip(1)
    } else {
        text
    }
}

/// The unsigned number a text writes in decimal: an optional `+`, then one or
/// more digits, and a value of at most `max`. `None` for every other text.
pub open spec fn parse_decimal(text: Seq<char>, max: nat) -> Option<nat> {
    let digits = without_plus(text);
    if digits.len() == 0 || !all_digits(digits) || digits_value(digits) > max {
        None
    } else {
        Some(digits_value(digits))
    }
}

/// A run of digits writes at least what any of its prefixes writes.
pub proof fn lemma_digits_value_prefix(text: Seq<char>, k: int)
    requires
        0 <= k <= text.len(),
    ensures
        digits_value(text.take(k)) <= digits_value(text),
    decreases text.len() - k,
{
    if k == text.len() {
        assert(text.take(k) =~= text);
    } else {
        lemma_digits_value_prefix(text.drop_last(), k);
        assert(text.drop_last().take(k) =~= text.take(k));
    }
}

/// The digit that a character writes.

fn digit_of(c: char) -> (d: Option<u64>)
    ensures
        match d {
            Some(v) => digit_value(c) == Some(v as nat) && v < 10,
            None => digit_value(c) is None,
        },
{
    if c == '0' {
        Some(0)
    } else if c == '1' {
        Some(1)
    } else if c == '2' {
        Some(2)
    } else if c == '3' {
        Some(3)
    } else if c == '4' {
        Some(4)
    } else if c == '5' {
        Some(5)
    } else if c == '6' {
        Some(6)
    } else if c == '7' {
        Some(7)
    } else if c == '8' {
        Some(8)
    } else if c == '9' {
        Some(9)
    } else {
        None
    }
}

/// Reads an unsigned decimal number of at most `max`.
pub fn parse_unsigned(text: &str, max: u64) -> (value: Option<u64>)
    ensures
        match value {
            Some(v) => parse_decimal(text@, max as nat) == Some(v as nat),
            None => parse_decimal(text@, max as nat) is None,
        },
{
    let chars = chars_of(text);
    let first: usize = if chars.len() > 0 && chars[0] == '+' {
        1
    } else {
        0
    };
    let ghost digits = without_plus(text@);
    assert(digits =~= text@.skip(first as int));
    if first == chars.len() {
        return None;
    }
    let mut value: u64 = 0;
    let mut i: usize = first;
    while i < chars.len()
        invariant
            first <= i <= chars.len(),
            chars@ == text@,
            digits == text@.skip(first as int),
            digits == without_plus(text@),
            all_digits(digits.take(i - first)),
            value == digits_value(digits.take(i - first)),
            value <= max,
        decreases chars.len() - i,
    {
        let ghost before = digits.take(i - first);
        let ghost after = digits.take(i + 1 - first);
        proof {
            assert(after.drop_last() =~= before);
            assert(after.last() == chars@[i as int]);
            lemma_digits_value_prefix(digits, i + 1 - first);
        }
        match digit_of(chars[i]) {
            None => {
                assert(digit_value(digits[i - first]) is None);
                return None;
            },
            Some(d) => {
                let next: u128 = value as u128 * 10 + d as u128;
                if next > max as u128 {
                    return None;
                }
                value = next as u64;
                assert forall|k: int| 0 <= k < after.len() implies (#[trigger] digit_value(
                    after[k],
                )) is Some by {
                    if k < before.len() {
                        assert(after[k] == before[k]);
                    }
                }
            },
        }
        i += 1;
    }
    assert(digits.take(i - first) =~= digits);
    Some(value)
}

} // verus!
