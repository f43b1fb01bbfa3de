//! The text rules of the wire: what counts as white space, which lines are
//! blank, how a line is shown, and how the relay's own announcements read.
//!
//! Every message is one line of text that ends with a newline.

use crate::ids::SessionId;
use vstd::prelude::*;
use vstd::string::*;

verus! {

/// White space is what Unicode gives the property White_Space: the controls
/// from tab to carriage return, the space, next line, the no-break spaces,
/// the ogham space mark, the typographic spaces, the line and paragraph
/// separators and the ideographic space.
pub open spec fn white_space(c: char) -> bool {
    let code = c as u32;
    ||| 0x09 <= code <= 0x0d
    ||| code == 0x20
    ||| code == 0x85
    ||| code == 0xa0
    ||| code == 0x1680
    ||| 0x2000 <= code <= 0x200a
    ||| code == 0x2028
    ||| code == 0x2029
    ||| code == 0x202f
    ||| code == 0x205f
    ||| code == 0x3000
}

/// A text is blank if it holds nothing but white space; the empty text is
/// blank.
pub open spec fn blank(text: Seq<char>) -> bool {
    forall|i: int| 0 <= i < text.len() ==> white_space(#[trigger] text[i])
}

/// The length of `text` without its trailing white space.
pub open spec fn trimmed_len(text: Seq<char>) -> nat
    decreases text.len(),
{
    if text.len() > 0 && white_space(text.last()) {
        trimmed_len(text.drop_last())
    } else {
        text.len()
    }
}

/// `text` without its trailing white space.
pub open spec fn trimmed(text: Seq<char>) -> Seq<char> {
    text.take(trimmed_len(text) as int)
}

/// The decimal digit for `d`, where `d` is below ten.
pub open spec fn digit(d: nat) -> char {
    if d == 0 {
        '0'
    } else if d == 1 {
        '1'
    } else if d == 2 {
        '2'
    } else if d == 3 {
        '3'
    } else if d == 4 {
        '4'
    } else if d == 5 {
        '5'
    } else if d == 6 {
        '6'
    } else if d == 7 {
        '7'
    } else if d == 8 {
        '8'
    } else {
        '9'
    }
}

/// `n` in decimal, without leading zeros.
pub open spec fn decimal(n: nat) -> Seq<char>
    decreases n,
{
    if n < 10 {
        seq![digit(n)]
    } else {
        decimal(n / 10).push(digit(n % 10))
    }
}

/// The line that announces that session `id` has joined.
pub open spec fn join_text(id: SessionId) -> Seq<char> {
    "system message: client "@ + decimal(id as nat) + " join the chat\n"@
}

/// The line that announces that session `id` has left.
pub open spec fn leave_text(id: SessionId) -> Seq<char> {
    "system message: client "@ + decimal(id as nat) + " leave the chat\n"@
}

/// What is left of a text with trailing white space removed: it ends in a
/// character that is no white space, or is empty, and all that was cut off
/// is white space.
pub proof fn lemma_trimmed_len(text: Seq<char>)
    ensures
        trimmed_len(text) <= text.len(),
        trimmed_len(text) > 0 ==> !white_space(text[trimmed_len(text) - 1]),
        forall|i: int| trimmed_len(text) <= i < text.len() ==> white_space(#[trigger] text[i]),
        blank(text) <==> trimmed_len(text) == 0,
    decreases text.len(),
{
    if text.len() > 0 && white_space(text.last()) {
        let front = text.drop_last();
        lemma_trimmed_len(front);
        assert forall|i: int| trimmed_len(text) <= i < text.len() implies white_space(
            #[trigger] text[i],
        ) by {
            if i < front.len() {
                assert(front[i] == text[i]);
            }
        }
        if blank(text) {
            assert forall|i: int| 0 <= i < front.len() implies white_space(#[trigger] front[i]) by {
                assert(front[i] == text[i]);
            }
        }
    }
}

/// Whether `c` is white space.
pub fn is_white_space(c: char) -> (yes: bool)
    ensures
        yes == white_space(c),
{
    let code = c as u32;
    (0x09 <= code && code <= 0x0d) || code == 0x20 || code == 0x85 || code == 0xa0 || code
        == 0x1680 || (0x2000 <= code && code <= 0x200a) || code == 0x2028 || code == 0x2029
        || code == 0x202f || code == 0x205f || code == 0x3000
}

/// The number of characters of `line` that remain when its trailing white
/// space is removed.
pub fn trimmed_length(line: &str) -> (kept: usize)
    ensures
        kept == trimmed_len(line@),
{
    let total = line.unicode_len();
    let mut kept: usize = 0;
    let mut seen: usize = 0;
    for c in it: line.chars()
        invariant
            it.seq() == line@,
            seen == it.index(),
            kept == trimmed_len(line@.take(seen as int)),
            kept <= seen <= line@.len() == total,
    {
        proof {
            let upto = line@.take(seen + 1);
            assert(upto.drop_last() =~= line@.take(seen as int));
        }
        seen = seen + 1;
        if !is_white_space(c) {
            kept = seen;
        }
    }
    proof {
        assert(line@.take(seen as int) =~= line@);
    }
    kept
}

/// Whether `line` is blank: empty, or white space only. A blank line is
/// never published.
pub fn is_blank(line: &str) -> (yes: bool)
    ensures
        yes == blank(line@),
{
    proof {
        lemma_trimmed_len(line@);
    }
    trimmed_length(line) == 0
}

/// The form in which a received line is shown: without the newline and any
/// other white space at its end.
pub fn trim_end(line: &str) -> (shown: &str)
    ensures
        shown@ == trimmed(line@),
{
    proof {
        lemma_trimmed_len(line@);
    }
    line.substring_char(0, trimmed_length(line))
}

/// The text of the digit `d`.
fn digit_text(d: u32) -> (text: &'static str)
    requires
        d < 10,
    ensures
        text@ == seq![digit(d as nat)],
{
    proof {
        reveal_strlit("0");
        reveal_strlit("1");
        reveal_strlit("2");
        reveal_strlit("3");
        reveal_strlit("4");
        reveal_strlit("5");
        reveal_strlit("6");
        reveal_strlit("7");
        reveal_strlit("8");
        reveal_strlit("9");
    }
    let text = if d == 0 {
        "0"
    } else if d == 1 {
        "1"
    } else if d == 2 {
        "2"
    } else if d == 3 {
        "3"
    } else if d == 4 {
        "4"
    } else if d == 5 {
        "5"
    } else if d == 6 {
        "6"
    } else if d == 7 {
        "7"
    } else if d == 8 {
        "8"
    } else {
        "9"
    };
    text
}

/// `n` written in decimal.
pub fn decimal_string(n: u32) -> (text: String)
    ensures
        text@ == decimal(n as nat),
    decreases n,
{
    if n < 10 {
        String::from_str(digit_text(n))
    } else {
        let mut text = decimal_string(n / 10);
        text.append(digit_text(n % 10));
        text
    }
}

/// The announcement that session `id` has joined, as it is published.
pub fn join_announcement(id: SessionId) -> (line: String)
    ensures
        line@ == join_text(id),
{
    let mut line = String::from_str("system message: client ");
    line.append(decimal_string(id).as_str());
    line.append(" join the chat\n");
    line
}

/// The announcement that session `id` has left, as it is published.
pub fn leave_announcement(id: SessionId) -> (line: String)
    ensures
        line@ == leave_text(id),
{
    let mut line = String::from_str("system message: client ");
    line.append(decimal_string(id).as_str());
    line.append(" leave the chat\n");
    line
}

} // verus!
