//! Reading a number from the first line of a file.

use vstd::prelude::*;
use vstd::slice::slice_subrange;

verus! {

/// Why the content of a file gave no number.
#[derive(Clone, Copy, PartialEq, Eq, Structural, Debug)]
pub enum ParseError {
    /// There is no content, so there is no first line.
    NoContent,
    /// The first line is not a decimal number that fits in 64 bits.
    NotANumber,
}

/// The position of the first line feed in `content`, or the length of
/// `content` if it holds none.
pub open spec fn line_end(content: Seq<u8>) -> nat
    decreases content.len(),
{
    if content.len() == 0 || content[0] == 0x0a {
        0
    } else {
        1 + line_end(content.drop_first())
    }
}

/// The first line of `content`, without what ends it: a line feed, or a
/// carriage return and a line feed. A last line that no line feed ends is
/// taken as it stands.
pub open spec fn first_line(content: Seq<u8>) -> Seq<u8> {
    let end = line_end(content) as int;
    if end < content.len() && end > 0 && content[end - 1] == 0x0d {
        content.take(end - 1)
    } else {
        content.take(end)
    }
}

/// Whether `byte` is an ASCII decimal digit.
pub open spec fn is_digit(byte: u8) -> bool {
    0x30 <= byte <= 0x39
}

/// Whether `text` holds ASCII decimal digits only.
pub open spec fn all_digits(text: Seq<u8>) -> bool {
    forall|i: int| 0 <= i < text.len() ==> is_digit(#[trigger] text[i])
}

/// The number that the decimal digits `text` write. A byte that is no digit
/// counts as the digit zero.
pub open spec fn decimal_value(text: Seq<u8>) -> nat
    decreases text.len(),
{
    if text.len() == 0 {
        0
    } else {
        let digit = if is_digit(text.last()) {
            (text.last() - 0x30) as nat
        } else {
            0
        };
        decimal_value(text.drop_last()) * 10 + digit
    }
}

/// The digits of a line that may start with a plus sign.
pub open spec fn unsigned_part(line: Seq<u8>) -> Seq<u8> {
    if line.len() > 0 && line[0] == 0x2b {
        line.drop_first()
    } else {
        line
    }
}

/// The number that `line` writes: an optional plus sign, then one decimal
/// digit or more and nothing else, for a value that fits in 64 bits.
pub open spec fn number_of(line: Seq<u8>) -> Option<u64> {
    let digits = unsigned_part(line);
    if digits.len() > 0 && all_digits(digits) && decimal_value(digits) <= u64::MAX {
        Some(decimal_value(digits) as u64)
    } else {
        None
    }
}

/// What the content of a file gives: the number on its first line.
pub open spec fn file_number(content: Seq<u8>) -> Result<u64, ParseError> {
    if content.len() == 0 {
        Err(ParseError::NoContent)
    } else {
        match number_of(first_line(content)) {
            Some(value) => Ok(value),
            None => Err(ParseError::NotANumber),
        }
    }
}

/// A number has at least the value of each of its prefixes.
proof fn lemma_prefix_value(text: Seq<u8>, len: int)
    requires
        0 <= len <= text.len(),
    ensures
        decimal_value(text.take(len)) <= decimal_value(text),
    decreases text.len(),
{
    if len == text.len() {
        assert(text.take(len) =~= text);
    } else {
        assert(text.drop_last().take(len) =~= text.take(len));
        lemma_prefix_value(text.drop_last(), len);
    }
}

/// Where the first line of `content` ends.
fn find_line_end(content: &[u8]) -> (end: usize)
    ensures
        end == line_end(content@),
        end <= content@.len(),
{
    let mut end: usize = 0;
    assert(content@.skip(0) =~= content@);
    while end < content.len() && content[end] != 0x0a
        invariant
            end <= content@.len(),
            line_end(content@) == end + line_end(content@.skip(end as int)),
        decreases content@.len() - end,
    {
        assert(content@.skip(end as int).drop_first() =~= content@.skip(end + 1));
        end = end + 1;
    }
    end
}

/// The number that `line` writes, if it writes one.
pub fn parse_u64(line: &[u8]) -> (value: Option<u64>)
    ensures
        value == number_of(line@),
{
    let start: usize = if line.len() > 0 && line[0] == 0x2b {
        1
    } else {
        0
    };
    let ghost digits = unsigned_part(line@);
    assert(digits =~= line@.skip(start as int));
    if start == line.len() {
        return None;
    }
    let mut acc: u64 = 0;
    let mut i: usize = start;
    while i < line.len()
        invariant
            start <= i <= line@.len(),
            digits == line@.skip(start as int),
            digits == unsigned_part(line@),
            all_digits(digits.take(i - start)),
            acc == decimal_value(digits.take(i - start)),
        decreases line@.len() - i,
    {
        let byte = line[i];
        let ghost seen = digits.take(i - start + 1);
        assert(digits[i - start] == byte);
        assert(seen.last() == byte);
        assert(seen.drop_last() =~= digits.take(i - start));
        if byte < 0x30 || byte > 0x39 {
            assert(!is_digit(digits[i - start]));
            return None;
        }
        assert(decimal_value(seen) == acc * 10 + (byte - 0x30));
        let next = match acc.checked_mul(10) {
            Some(tens) => tens.checked_add((byte - 0x30) as u64),
            None => None,
        };
        match next {
            Some(sum) => {
                acc = sum;
            },
            None => {
                proof {
                    lemma_prefix_value(digits, i - start + 1);
                }
                return None;
            },
        }
        assert forall|j: int| 0 <= j < seen.len() implies is_digit(#[trigger] seen[j]) by {
            if j < seen.len() - 1 {
                assert(seen[j] == digits.take(i - start)[j]);
            }
        }
        i = i + 1;
    }
    assert(digits.take(line@.len() - start) =~= digits);
    Some(acc)
}

/// The number on the first line of `content`, which is what a file held.
pub fn parse_file_to_u64(content: &[u8]) -> (r: Result<u64, ParseError>)
    ensures
        r == file_number(content@),
{
    if content.len() == 0 {
        return Err(ParseError::NoContent);
    }
    let end = find_line_end(content);
    let stop: usize = if end < content.len() && end > 0 && content[end - 1] == 0x0d {
        end - 1
    } else {
        end
    };
    let line = slice_subrange(content, 0, stop);
    assert(line@ =~= first_line(content@));
    match parse_u64(line) {
        Some(value) => Ok(value),
        None => Err(ParseError::NotANumber),
    }
}

} // verus!
