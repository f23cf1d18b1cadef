//! What a shell spawned by this tool hands to the commands run inside it:
//! that it is active, and how deeply it is nested.

use crate::error::{KubieError, KubieErrorView};
use crate::text::{option_str, str_eq};
use vstd::prelude::*;
use vstd::string::StrSliceExecFns;

verus! {

/// Whether `c` is a decimal digit.
pub open spec fn is_digit(c: char) -> bool {
    '0' <= c && c <= '9'
}

/// Whether `s` is made of decimal digits only.
pub open spec fn all_digits(s: Seq<char>) -> bool {
    forall|i: int| 0 <= i < s.len() ==> is_digit(#[trigger] s[i])
}

/// The number that the decimal digits `digits` write.
pub open spec fn decimal_value(digits: Seq<char>) -> nat
    decreases digits.len(),
{
    if digits.len() == 0 {
        0
    } else {
        (decimal_value(digits.drop_last()) * 10 + (digits.last() as u32 - '0' as u32)) as nat
    }
}

/// `text` without the `+` that may stand before a number.
pub open spec fn unsigned_part(text: Seq<char>) -> Seq<char> {
    if text.len() > 0 && text[0] == '+' {
        text.skip(1)
    } else {
        text
    }
}

/// The depth that `text` writes: a number of decimal digits, at least one,
/// with or without a `+` before it, that is no greater than `u32::MAX`.
pub open spec fn parsed_depth(text: Seq<char>) -> Option<u32> {
    let digits = unsigned_part(text);
    if digits.len() > 0 && all_digits(digits) && decimal_value(digits) <= u32::MAX {
        Some(decimal_value(digits) as u32)
    } else {
        None
    }
}

/// The depth of nesting that the shell hands down in `value`: the number
/// written there, and 0 where there is no value or it writes no number.
pub open spec fn depth_of(value: Option<Seq<char>>) -> u32 {
    match value {
        Some(text) => match parsed_depth(text) {
            Some(depth) => depth,
            None => 0,
        },
        None => 0,
    }
}

/// The number written by the first digits is no greater than the number
/// written by all of them.
proof fn lemma_decimal_value_grows(digits: Seq<char>, k: int)
    requires
        0 <= k <= digits.len(),
        all_digits(digits),
    ensures
        decimal_value(digits.take(k)) <= decimal_value(digits),
    decreases digits.len() - k,
{
    if k < digits.len() {
        lemma_decimal_value_grows(digits, k + 1);
        assert(digits.take(k + 1).drop_last() =~= digits.take(k));
        assert(is_digit(digits[k]));
    } else {
        assert(digits.take(k) =~= digits);
    }
}

/// The number that `text` writes, if it writes one that fits.
fn parse_depth(text: &str) -> (r: Option<u32>)
    ensures
        r == parsed_depth(text@),
{
    let n = text.unicode_len();
    let start: usize = if n > 0 && text.get_char(0) == '+' {
        1
    } else {
        0
    };
    let ghost digits = text@.skip(start as int);
    if start == n {
        return None;
    }
    let mut value: u32 = 0;
    let mut i: usize = start;
    assert(digits.take(0) =~= Seq::empty());
    while i < n
        invariant
            start <= i <= n,
            start < n,
            n == text@.len(),
            digits == text@.skip(start as int),
            digits == unsigned_part(text@),
            all_digits(digits.take(i - start)),
            value == decimal_value(digits.take(i - start)),
        decreases n - i,
    {
        let c = text.get_char(i);
        assert(digits[i - start] == c);
        if !('0' <= c && c <= '9') {
            return None;
        }
        assert(digits.take(i - start + 1).drop_last() =~= digits.take(i - start));
        assert(all_digits(digits.take(i - start + 1))) by {
            assert forall|j: int| 0 <= j < i - start + 1 implies is_digit(
                #[trigger] digits.take(i - start + 1)[j],
            ) by {
                if j < i - start {
                    assert(digits.take(i - start)[j] == digits[j]);
                }
            }
        }
        let d: u32 = c as u32 - '0' as u32;
        if value > (u32::MAX - d) / 10 {
            proof {
                if all_digits(digits) {
                    lemma_decimal_value_grows(digits, i - start + 1);
                }
            }
            return None;
        }
        value = value * 10 + d;
        i += 1;
    }
    assert(digits.take(i - start) =~= digits);
    Some(value)
}

/// The depth of nesting of the shell, from the value that the shell hands
/// down, if it hands one down.
pub fn get_depth(value: Option<&str>) -> (r: u32)
    ensures
        r == depth_of(option_str(value)),
{
    match value {
        Some(text) => match parse_depth(text) {
            Some(depth) => depth,
            None => 0,
        },
        None => 0,
    }
}

/// Whether the command runs inside a shell spawned by this tool: the shell
/// hands down the value `1`.
pub fn is_kubie_active(value: Option<&str>) -> (r: bool)
    ensures
        r == (option_str(value) == Some("1"@)),
{
    match value {
        Some(text) => str_eq(text, "1"),
        None => false,
    }
}

/// Fails unless the command runs inside a shell spawned by this tool.
pub fn ensure_kubie_active(value: Option<&str>) -> (r: Result<(), KubieError>)
    ensures
        r is Ok <==> option_str(value) == Some("1"@),
        r matches Err(e) ==> e@ == KubieErrorView::NotInKubieShell,
{
    if !is_kubie_active(value) {
        return Err(KubieError::NotInKubieShell);
    }
    Ok(())
}

} // verus!
