//! Detection of code in a text: a fence of three backticks, or a line indented
//! by four spaces that is not blank.

use crate::text::{chars_of, contains_chars, is_substring};
use vstd::prelude::*;

verus! {

/// Whether `c` is white space: one of the characters with the Unicode
/// property White_Space.
pub open spec fn is_whitespace(c: char) -> bool {
    let code = c as u32;
    ||| 0x09 <= code <= 0x0D
    ||| code == 0x20
    ||| code == 0x85
    ||| code == 0xA0
    ||| code == 0x1680
    ||| 0x2000 <= code <= 0x200A
    ||| code == 0x2028
    ||| code == 0x2029
    ||| code == 0x202F
    ||| code == 0x205F
    ||| code == 0x3000
}

/// Tests whether `c` is white space.
pub fn is_whitespace_exec(c: char) -> (r: bool)
    ensures
        r == is_whitespace(c),
{
    let code: u32 = c as u32;
    (0x09 <= code && code <= 0x0D) || code == 0x20 || code == 0x85 || code == 0xA0 || code
        == 0x1680 || (0x2000 <= code && code <= 0x200A) || code == 0x2028 || code == 0x2029
        || code == 0x202F || code == 0x205F || code == 0x3000
}

/// Whether a line of `text` starts at `start`: at the very beginning, or right
/// after a line feed.
pub open spec fn is_line_start(text: Seq<char>, start: int) -> bool {
    0 <= start <= text.len() && (start == 0 || text[start - 1] == '\n')
}

/// Whether what starts at `start` begins with four spaces and then, at `k` on
/// the same line, holds a character that is no white space.
pub open spec fn indented_code_at(text: Seq<char>, start: int, k: int) -> bool {
    &&& 0 <= start
    &&& start + 4 <= k < text.len()
    &&& forall|j: int| start <= j < start + 4 ==> text[j] == ' '
    &&& forall|j: int| start <= j < k ==> text[j] != '\n'
    &&& !is_whitespace(text[k])
}

/// Whether some line of `text` is indented by four or more spaces and is not blank.
pub open spec fn has_indented_code(text: Seq<char>) -> bool {
    exists|start: int, k: int| is_line_start(text, start) && indented_code_at(text, start, k)
}

/// Whether `text` holds code: three backticks in a row, or an indented line
/// that is not blank.
pub open spec fn spec_has_code_blocks(text: Seq<char>) -> bool {
    is_substring("```"@, text) || has_indented_code(text)
}

/// The position of the first line feed in `chars` at or after `from`, or the
/// length of `chars` where there is none.
fn find_line_end(chars: &Vec<char>, from: usize) -> (r: usize)
    requires
        from <= chars.len(),
    ensures
        from <= r <= chars.len(),
        forall|j: int| from <= j < r ==> chars@[j] != '\n',
        r < chars.len() ==> chars@[r as int] == '\n',
{
    let mut i: usize = from;
    while i < chars.len()
        invariant
            from <= i <= chars.len(),
            forall|j: int| from <= j < i ==> chars@[j] != '\n',
        decreases chars.len() - i,
    {
        if chars[i] == '\n' {
            return i;
        }
        i += 1;
    }
    i
}

/// Tests whether the line from `start` to `end` begins with four spaces and
/// holds a character that is no white space.
fn line_is_indented_code(chars: &Vec<char>, start: usize, end: usize) -> (r: bool)
    requires
        start <= end <= chars.len(),
        forall|j: int| start <= j < end ==> chars@[j] != '\n',
        end < chars.len() ==> chars@[end as int] == '\n',
    ensures
        r == exists|k: int| indented_code_at(chars@, start as int, k),
{
    if end - start < 4 {
        assert forall|k: int| !indented_code_at(chars@, start as int, k) by {
            if indented_code_at(chars@, start as int, k) {
                assert(chars@[end as int] == '\n');
            }
        }
        return false;
    }
    let mut i: usize = start;
    while i < start + 4
        invariant
            start <= i <= start + 4 <= end <= chars.len(),
            forall|j: int| start <= j < i ==> chars@[j] == ' ',
        decreases start + 4 - i,
    {
        if chars[i] != ' ' {
            return false;
        }
        i += 1;
    }
    let mut k: usize = start + 4;
    while k < end
        invariant
            start + 4 <= k <= end <= chars.len(),
            forall|j: int| start <= j < start + 4 ==> chars@[j] == ' ',
            forall|j: int| start <= j < end ==> chars@[j] != '\n',
            forall|j: int| start + 4 <= j < k ==> is_whitespace(chars@[j]),
        decreases end - k,
    {
        if !is_whitespace_exec(chars[k]) {
            assert(indented_code_at(chars@, start as int, k as int));
            return true;
        }
        k += 1;
    }
    assert forall|j: int| !indented_code_at(chars@, start as int, j) by {
        if indented_code_at(chars@, start as int, j) {
            if j >= end {
                assert(chars@[end as int] == '\n');
                assert(is_whitespace('\n'));
            }
        }
    }
    false
}

/// Tests whether some line of `chars` is indented by four or more spaces and
/// is not blank.
fn has_indented_code_exec(chars: &Vec<char>) -> (r: bool)
    ensures
        r == has_indented_code(chars@),
{
    let mut start: usize = 0;
    loop
        invariant_except_break
            start <= chars.len(),
            is_line_start(chars@, start as int),
            forall|s: int, k: int|
                0 <= s < start && is_line_start(chars@, s) ==> !indented_code_at(chars@, s, k),
        ensures
            forall|s: int, k: int|
                is_line_start(chars@, s) ==> !indented_code_at(chars@, s, k),
        decreases chars.len() - start,
    {
        let end = find_line_end(chars, start);
        if line_is_indented_code(chars, start, end) {
            return true;
        }
        assert forall|s: int, k: int|
            start < s <= end && is_line_start(chars@, s) implies !indented_code_at(
            chars@,
            s,
            k,
        ) by {
            assert(chars@[s - 1] != '\n');
        }
        if end >= chars.len() {
            break;
        }
        start = end + 1;
    }
    false
}

/// Tells whether a text holds code: a fence of three backticks anywhere, or at
/// least one line that is indented by four or more spaces and is not blank.
pub fn has_code_blocks(text: &str) -> (r: bool)
    ensures
        r == spec_has_code_blocks(text@),
{
    let chars = chars_of(text);
    let fence = chars_of("```");
    if contains_chars(&chars, &fence) {
        return true;
    }
    has_indented_code_exec(&chars)
}

} // verus!
