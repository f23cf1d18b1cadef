//! Small operations on strings that the rest of the library shares.

use crate::search::{first_position, last_position, lemma_first_position, lemma_last_position};
use vstd::prelude::*;
use vstd::string::{StrSliceExecFns, StringExecFns};

verus! {

/// The view of an optional string.
pub open spec fn option_text(s: Option<String>) -> Option<Seq<char>> {
    match s {
        Some(s) => Some(s@),
        None => None,
    }
}

/// The view of an optional string slice.
pub open spec fn option_str(s: Option<&str>) -> Option<Seq<char>> {
    match s {
        Some(s) => Some(s@),
        None => None,
    }
}

/// Whether two string slices hold the same characters.
pub fn str_eq(a: &str, b: &str) -> (r: bool)
    ensures
        r == (a@ == b@),
{
    a.to_owned() == b.to_owned()
}

/// Whether two optional strings hold the same text.
pub fn option_string_eq(a: &Option<String>, b: &Option<String>) -> (r: bool)
    ensures
        r == (option_text(*a) == option_text(*b)),
{
    match (a, b) {
        (Some(x), Some(y)) => str_eq(x.as_str(), y.as_str()),
        (None, None) => true,
        _ => false,
    }
}

/// An owned copy of an optional string slice.
pub fn option_to_owned(s: Option<&str>) -> (r: Option<String>)
    ensures
        option_text(r) == option_str(s),
{
    match s {
        Some(s) => Some(s.to_owned()),
        None => None,
    }
}

/// The views of the strings of a sequence.
pub open spec fn texts(s: Seq<String>) -> Seq<Seq<char>> {
    s.map_values(|x: String| x@)
}

/// Whether `s` begins with `prefix`.
pub open spec fn has_prefix(s: Seq<char>, prefix: Seq<char>) -> bool {
    prefix.len() <= s.len() && s.take(prefix.len() as int) == prefix
}

/// Whether `needle` occurs somewhere in `s`.
pub open spec fn has_substring(s: Seq<char>, needle: Seq<char>) -> bool {
    exists|i: int|
        0 <= i && i + needle.len() <= s.len() && #[trigger] s.subrange(i, i + needle.len())
            == needle
}

/// Whether `s` begins with `prefix`.
pub fn starts_with(s: &str, prefix: &str) -> (r: bool)
    ensures
        r == has_prefix(s@, prefix@),
{
    let text = chars_of(s);
    let start = chars_of(prefix);
    if start.len() > text.len() {
        return false;
    }
    let mut i: usize = 0;
    while i < start.len()
        invariant
            text@ == s@,
            start@ == prefix@,
            i <= start.len() <= text.len(),
            forall|k: int| 0 <= k < i ==> text@[k] == start@[k],
        decreases start.len() - i,
    {
        if text[i] != start[i] {
            assert(s@.take(prefix@.len() as int)[i as int] != prefix@[i as int]);
            return false;
        }
        i += 1;
    }
    assert(s@.take(prefix@.len() as int) =~= prefix@);
    true
}

/// Whether `needle` stands in `text` at the position `at`.
fn occurs_at(text: &Vec<char>, needle: &Vec<char>, at: usize) -> (r: bool)
    requires
        at + needle.len() <= text.len(),
    ensures
        r == (text@.subrange(at as int, at + needle@.len()) == needle@),
{
    let mut k: usize = 0;
    while k < needle.len()
        invariant
            at + needle.len() <= text.len(),
            k <= needle.len(),
            forall|j: int| 0 <= j < k ==> text@[at + j] == needle@[j],
        decreases needle.len() - k,
    {
        if text[at + k] != needle[k] {
            assert(text@.subrange(at as int, at + needle@.len())[k as int] != needle@[k as int]);
            return false;
        }
        k += 1;
    }
    assert(text@.subrange(at as int, at + needle@.len()) =~= needle@);
    true
}

/// Whether `needle` occurs somewhere in `s`.
pub fn contains(s: &str, needle: &str) -> (r: bool)
    ensures
        r == has_substring(s@, needle@),
{
    let text = chars_of(s);
    let part = chars_of(needle);
    if part.len() > text.len() {
        return false;
    }
    let last: usize = text.len() - part.len();
    let mut at: usize = 0;
    while at < last
        invariant
            text@ == s@,
            part@ == needle@,
            part.len() <= text.len(),
            last == text.len() - part.len(),
            at <= last,
            forall|i: int|
                0 <= i < at ==> #[trigger] s@.subrange(i, i + needle@.len()) != needle@,
        decreases last - at,
    {
        if occurs_at(&text, &part, at) {
            return true;
        }
        at += 1;
    }
    occurs_at(&text, &part, last)
}

/// The strings `a` and `b`, one behind the other.
pub fn concat2(a: &str, b: &str) -> (r: String)
    ensures
        r@ == a@ + b@,
{
    let mut r = String::from_str(a);
    r.append(b);
    r
}

/// The strings `a`, `b` and `c`, one behind the other.
pub fn concat3(a: &str, b: &str, c: &str) -> (r: String)
    ensures
        r@ == a@ + b@ + c@,
{
    let mut r = String::from_str(a);
    r.append(b);
    r.append(c);
    r
}

/// Whether `list` holds the string `s`.
pub fn list_contains(list: &Vec<String>, s: &str) -> (r: bool)
    ensures
        r == texts(list@).contains(s@),
{
    let mut i: usize = 0;
    while i < list.len()
        invariant
            i <= list.len(),
            forall|j: int| 0 <= j < i ==> texts(list@)[j] != s@,
        decreases list.len() - i,
    {
        if str_eq(list[i].as_str(), s) {
            assert(texts(list@)[i as int] == s@);
            return true;
        }
        i += 1;
    }
    false
}

/// The character that writes the digit `d`.
pub open spec fn digit_char(d: nat) -> char {
    if d == 0 {
        '0'
    } else if d == 1 {
        '1'
    } else if d == 2 {
        '2'
    } else if d == 3 {
        '3'
    } else if d == 4 {
        '4'
    } else if d == 5 {
        '5'
    } else if d == 6 {
        '6'
    } else if d == 7 {
        '7'
    } else if d == 8 {
        '8'
    } else {
        '9'
    }
}

/// The number `n` written in decimal digits, without leading zeros.
pub open spec fn decimal(n: nat) -> Seq<char>
    decreases n,
{
    if n < 10 {
        seq![digit_char(n)]
    } else {
        decimal(n / 10).push(digit_char(n % 10))
    }
}

/// The digit `d` as a string.
fn digit_str(d: u32) -> (r: &'static str)
    requires
        d < 10,
    ensures
        r@ == seq![digit_char(d as nat)],
{
    proof {
        reveal_strlit("0");
        reveal_strlit("1");
        reveal_strlit("2");
        reveal_strlit("3");
        reveal_strlit("4");
        reveal_strlit("5");
        reveal_strlit("6");
        reveal_strlit("7");
        reveal_strlit("8");
        reveal_strlit("9");
    }
    let r = if d == 0 {
        "0"
    } else if d == 1 {
        "1"
    } else if d == 2 {
        "2"
    } else if d == 3 {
        "3"
    } else if d == 4 {
        "4"
    } else if d == 5 {
        "5"
    } else if d == 6 {
        "6"
    } else if d == 7 {
        "7"
    } else if d == 8 {
        "8"
    } else {
        "9"
    };
    assert(r@ =~= seq![digit_char(d as nat)]);
    r
}

/// The number `n` written in decimal digits.
pub fn decimal_string(n: u32) -> (r: String)
    ensures
        r@ == decimal(n as nat),
    decreases n,
{
    if n < 10 {
        String::from_str(digit_str(n))
    } else {
        let mut r = decimal_string(n / 10);
        r.append(digit_str(n % 10));
        assert(r@ =~= decimal(n as nat));
        r
    }
}

/// The characters equal to `c`.
pub open spec fn is_char(c: char) -> spec_fn(char) -> bool {
    |x: char| x == c
}

/// The characters other than `c`.
pub open spec fn is_not_char(c: char) -> spec_fn(char) -> bool {
    |x: char| x != c
}

/// `s` up to its first `c`, or all of `s` where it holds no `c`.
pub fn up_to<'a>(s: &'a str, c: char) -> (r: &'a str)
    ensures
        r@ == s@.take(first_position(s@, is_char(c))),
{
    let n = s.unicode_len();
    let mut i: usize = 0;
    while i < n && s.get_char(i) != c
        invariant
            n == s@.len(),
            i <= n,
            forall|j: int| 0 <= j < i ==> !is_char(c)(#[trigger] s@[j]),
        decreases n - i,
    {
        i += 1;
    }
    proof {
        lemma_first_position(s@, is_char(c), i as int);
    }
    s.substring_char(0, i)
}

/// `s` behind its last `c`, or all of `s` where it holds no `c`.
pub fn after_last<'a>(s: &'a str, c: char) -> (r: &'a str)
    ensures
        r@ == s@.skip(last_position(s@, is_char(c)) + 1),
{
    let n = s.unicode_len();
    let mut i: usize = n;
    while i > 0 && s.get_char(i - 1) != c
        invariant
            n == s@.len(),
            i <= n,
            forall|j: int| i <= j < n ==> !is_char(c)(#[trigger] s@[j]),
        decreases i,
    {
        i -= 1;
    }
    proof {
        lemma_last_position(s@, is_char(c), i as int - 1);
    }
    s.substring_char(i, n)
}

/// `s` without the `c`s at its start.
pub fn trim_start<'a>(s: &'a str, c: char) -> (r: &'a str)
    ensures
        r@ == s@.skip(first_position(s@, is_not_char(c))),
{
    let n = s.unicode_len();
    let mut i: usize = 0;
    while i < n && s.get_char(i) == c
        invariant
            n == s@.len(),
            i <= n,
            forall|j: int| 0 <= j < i ==> !is_not_char(c)(#[trigger] s@[j]),
        decreases n - i,
    {
        i += 1;
    }
    proof {
        lemma_first_position(s@, is_not_char(c), i as int);
    }
    s.substring_char(i, n)
}

/// The characters of `s`.
pub fn chars_of(s: &str) -> (r: Vec<char>)
    ensures
        r@ == s@,
{
    let mut chars: Vec<char> = Vec::new();
    for c in it: s.chars()
        invariant
            it.seq() == s@,
            chars@ == s@.take(it.index() as int),
    {
        chars.push(c);
        assert(s@.take(it.index() + 1) =~= s@.take(it.index() as int).push(c));
    }
    assert(s@.take(s@.len() as int) =~= s@);
    chars
}

/// The newlines.
pub open spec fn is_newline() -> spec_fn(char) -> bool {
    |c: char| c == '\n'
}

/// `line` without the carriage return at its end, if it has one.
pub open spec fn without_return(line: Seq<char>) -> Seq<char> {
    if line.len() > 0 && line.last() == '\r' {
        line.drop_last()
    } else {
        line
    }
}

/// The lines of `text` from the position `start` on. The end of a line
/// never lies before its start; that the definition says so lets it be
/// seen to terminate.
pub open spec fn lines_from(text: Seq<char>, start: int) -> Seq<Seq<char>>
    decreases text.len() - start,
{
    if start < 0 || start >= text.len() {
        Seq::empty()
    } else {
        let end = start + first_position(text.skip(start), is_newline());
        if end < start || end >= text.len() {
            seq![text.skip(start)]
        } else {
            seq![without_return(text.subrange(start, end))] + lines_from(text, end + 1)
        }
    }
}

/// The lines of `text`: what stands between its newlines. A line ends at
/// a newline, and a carriage return just before the newline belongs to the
/// line ending. Behind the last newline there is a line only where there
/// is text.
pub open spec fn text_lines(text: Seq<char>) -> Seq<Seq<char>> {
    lines_from(text, 0)
}

/// The lines of `text`.
pub fn lines(text: &str) -> (r: Vec<String>)
    ensures
        texts(r@) == text_lines(text@),
{
    let chars = chars_of(text);
    let n = chars.len();
    let mut out: Vec<String> = Vec::new();
    let mut start: usize = 0;
    let mut i: usize = 0;
    assert(texts(out@) + lines_from(text@, 0) =~= text_lines(text@));
    while i < n
        invariant
            chars@ == text@,
            n == text@.len(),
            start <= i <= n,
            texts(out@) + lines_from(text@, start as int) == text_lines(text@),
            forall|k: int| start <= k < i ==> text@[k] != '\n',
        decreases n - i,
    {
        if chars[i] == '\n' {
            let end: usize = if i > start && chars[i - 1] == '\r' {
                (i - 1) as usize
            } else {
                i
            };
            let line = text.substring_char(start, end).to_owned();
            proof {
                let rest = text@.skip(start as int);
                assert forall|k: int| 0 <= k < i - start implies !is_newline()(
                    #[trigger] rest[k],
                ) by {
                    assert(rest[k] == text@[start + k]);
                }
                assert(rest[i - start] == text@[i as int]);
                lemma_first_position(rest, is_newline(), i - start);
                let whole = text@.subrange(start as int, i as int);
                assert(line@ =~= without_return(whole)) by {
                    if i > start {
                        assert(whole.last() == text@[i - 1]);
                    }
                }
            }
            let ghost before = out@;
            out.push(line);
            proof {
                assert(texts(out@) =~= texts(before).push(line@));
                assert(texts(out@) + lines_from(text@, i + 1) =~= texts(before) + lines_from(
                    text@,
                    start as int,
                ));
            }
            start = i + 1;
        }
        i += 1;
    }
    if start < n {
        let line = text.substring_char(start, n).to_owned();
        proof {
            let rest = text@.skip(start as int);
            assert forall|k: int| 0 <= k < n - start implies !is_newline()(#[trigger] rest[k]) by {
                assert(rest[k] == text@[start + k]);
            }
            lemma_first_position(rest, is_newline(), n - start);
            assert(line@ =~= rest);
        }
        let ghost before = out@;
        out.push(line);
        proof {
            assert(texts(out@) =~= texts(before).push(line@));
            assert(texts(out@) =~= texts(before) + lines_from(text@, start as int));
        }
    } else {
        assert(texts(out@) + lines_from(text@, start as int) =~= texts(out@));
    }
    out
}

/// Whether `c` is white space, as `char::is_whitespace` says.
pub uninterp spec fn is_white_space(c: char) -> bool;

/// `char::is_whitespace`: whether the character has the Unicode property
/// of white space.
#[verifier::external_body]
pub(crate) fn is_whitespace(c: char) -> (r: bool)
    ensures
        r == is_white_space(c),
{
    c.is_whitespace()
}

/// The characters that are white space.
pub open spec fn white_space() -> spec_fn(char) -> bool {
    |c: char| is_white_space(c)
}

/// The words of `text` from the position `start` on. A word that starts
/// with a character that is no white space ends behind its start and
/// within the text; that the definition says so lets it be seen to
/// terminate.
pub open spec fn words_from(text: Seq<char>, start: int) -> Seq<Seq<char>>
    decreases text.len() - start,
{
    if start < 0 || start >= text.len() {
        Seq::empty()
    } else if is_white_space(text[start]) {
        words_from(text, start + 1)
    } else {
        let end = start + first_position(text.skip(start), white_space());
        if end <= start || end > text.len() {
            Seq::empty()
        } else {
            seq![text.subrange(start, end)] + words_from(text, end)
        }
    }
}

/// The words of `text`: the stretches of characters that are no white
/// space, each from the white space before it, or the start of the text,
/// to the white space behind it, or the end of the text.
pub open spec fn text_words(text: Seq<char>) -> Seq<Seq<char>> {
    words_from(text, 0)
}

/// The words of `text`.
pub fn words(text: &str) -> (r: Vec<String>)
    ensures
        texts(r@) == text_words(text@),
{
    let chars = chars_of(text);
    let n = chars.len();
    let mut out: Vec<String> = Vec::new();
    let mut i: usize = 0;
    assert(texts(out@) + words_from(text@, 0) =~= text_words(text@));
    while i < n
        invariant
            chars@ == text@,
            n == text@.len(),
            i <= n,
            texts(out@) + words_from(text@, i as int) == text_words(text@),
        decreases n - i,
    {
        if is_whitespace(chars[i]) {
            i += 1;
        } else {
            let mut j: usize = i + 1;
            while j < n && !is_whitespace(chars[j])
                invariant
                    chars@ == text@,
                    n == text@.len(),
                    i < j <= n,
                    forall|k: int| i <= k < j ==> !is_white_space(text@[k]),
                decreases n - j,
            {
                j += 1;
            }
            let word = text.substring_char(i, j).to_owned();
            proof {
                let rest = text@.skip(i as int);
                assert forall|k: int| 0 <= k < j - i implies !white_space()(#[trigger] rest[k]) by {
                    assert(rest[k] == text@[i + k]);
                }
                if j < n {
                    assert(rest[j - i] == text@[j as int]);
                }
                lemma_first_position(rest, white_space(), j - i);
            }
            let ghost before = out@;
            out.push(word);
            proof {
                assert(texts(out@) =~= texts(before).push(word@));
                assert(texts(out@) + words_from(text@, j as int) =~= texts(before) + words_from(
                    text@,
                    i as int,
                ));
            }
            i = j;
        }
    }
    assert(texts(out@) + words_from(text@, n as int) =~= texts(out@));
    out
}

/// The characters that are no white space.
pub open spec fn is_not_white_space() -> spec_fn(char) -> bool {
    |c: char| !is_white_space(c)
}

/// `text` without the white space at its start and at its end.
pub open spec fn trimmed(text: Seq<char>) -> Seq<char> {
    text.subrange(
        first_position(text, is_not_white_space()),
        if last_position(text, is_not_white_space()) < 0 {
            first_position(text, is_not_white_space())
        } else {
            last_position(text, is_not_white_space()) + 1
        },
    )
}

/// `text` without the white space at its start and at its end.
pub fn trim<'a>(text: &'a str) -> (r: &'a str)
    ensures
        r@ == trimmed(text@),
{
    let chars = chars_of(text);
    let n = chars.len();
    let mut start: usize = 0;
    while start < n && is_whitespace(chars[start])
        invariant
            chars@ == text@,
            n == text@.len(),
            start <= n,
            forall|j: int| 0 <= j < start ==> !is_not_white_space()(#[trigger] text@[j]),
        decreases n - start,
    {
        start += 1;
    }
    let mut end: usize = n;
    while end > start && is_whitespace(chars[end - 1])
        invariant
            chars@ == text@,
            n == text@.len(),
            start <= end <= n,
            start < n ==> !is_white_space(text@[start as int]),
            forall|j: int| end <= j < n ==> !is_not_white_space()(#[trigger] text@[j]),
        decreases end,
    {
        end -= 1;
    }
    proof {
        lemma_first_position(text@, is_not_white_space(), start as int);
        if end == start {
            lemma_last_position(text@, is_not_white_space(), -1);
        } else {
            lemma_last_position(text@, is_not_white_space(), end - 1);
        }
    }
    text.substring_char(start, end)
}

} // verus!
