//! Framing of replies on the control connection.
//!
//! A reply is one line, `"<code> <text>"`, or several: an opening line whose
//! fourth character is not a space, any number of lines of free text, and a
//! closing line that begins with the same code and a space. The code is three
//! digits that give a number from 100 to 559. The lines come one at a time;
//! [`frame_line`] says after each whether the reply is complete. A stream
//! that ends inside a reply fails it.

use crate::text::{
    chars_of,
    decimal_text,
    digit_value,
    is_digit,
    is_space,
    push_decimal,
    trim,
    trim_end_keeps,
    trimmed,
};
use crate::types::{ErrorView, FtpError, Line};
use vstd::prelude::*;
use vstd::string::StringExecFns;

verus! {

/// How far the reader of a reply has come.
#[derive(Debug, Clone, Copy, PartialEq, Eq, Structural)]
pub enum Framing {
    /// No line of the reply has been read.
    First,
    /// The reply was opened with this code and its closing line is awaited.
    Continued(u32),
}

/// What a line does to the reply being read.
#[derive(Debug)]
pub enum Framed {
    /// The reply goes on: another line is needed.
    More(Framing),
    /// The reply is complete and bears a code that was expected.
    Reply(Line),
    /// The reply is malformed, or complete with a code that was not expected.
    Malformed(FtpError),
}

/// A [`Framed`] as contracts see it.
pub enum FramedView {
    More(Framing),
    Reply((u32, Seq<char>)),
    Malformed(ErrorView),
}

impl View for Framed {
    type V = FramedView;

    open spec fn view(&self) -> FramedView {
        match *self {
            Framed::More(f) => FramedView::More(f),
            Framed::Reply(l) => FramedView::Reply(l@),
            Framed::Malformed(e) => FramedView::Malformed(e@),
        }
    }
}

/// The code that a line begins with: three digits, read as a number.
pub open spec fn leading_code(line: Seq<char>) -> Option<u32> {
    if line.len() >= 3 && is_digit(line[0]) && is_digit(line[1]) && is_digit(line[2]) {
        Some((digit_value(line[0]) * 100 + digit_value(line[1]) * 10 + digit_value(line[2])) as u32)
    } else {
        None
    }
}

/// Whether `line` closes a reply that was opened with `code`: it begins with
/// the code and a space.
pub open spec fn closes(line: Seq<char>, code: u32) -> bool {
    line.len() >= 5 && leading_code(line) == Some(code) && line[3] == ' '
}

/// The codes, each in decimal, with a comma and a space between them.
pub open spec fn codes_joined(codes: Seq<u32>) -> Seq<char>
    decreases codes.len(),
{
    if codes.len() == 0 {
        Seq::empty()
    } else if codes.len() == 1 {
        decimal_text(codes[0] as nat)
    } else {
        codes_joined(codes.drop_last()) + ", "@ + decimal_text(codes.last() as nat)
    }
}

/// What the error says of a line too short to bear a code.
pub open spec fn unreadable_text() -> Seq<char> {
    "error: could not read reply code"@
}

/// What the error says of a line that begins with anything but three digits.
pub open spec fn unparsable_text() -> Seq<char> {
    "error: could not parse reply code: invalid digit found in string"@
}

/// What the error says of a reply whose code is none of `expected`: the codes
/// in square brackets, and the reply's closing line, which begins with the
/// code it bears.
pub open spec fn unexpected_text(expected: Seq<u32>, text: Seq<char>) -> Seq<char> {
    "Expected code ["@ + codes_joined(expected) + "], got response: "@ + text
}

/// The codes that a reply can bear: 100 to 559.
pub open spec fn is_reply_code(code: u32) -> bool {
    100 <= code <= 559
}

/// What the error says of a reply whose three digits give no reply code: the
/// reply's line behind a few words.
pub open spec fn out_of_range_text(text: Seq<char>) -> Seq<char> {
    "error: reply code out of range: "@ + text
}

/// What the error says of a reply that the stream ends in the middle of.
pub open spec fn unfinished_text() -> Seq<char> {
    "connection closed before the end of the reply"@
}

/// Whether `line` ends in a line feed, as every line does but one that the
/// end of the stream cuts short. The empty line, which is all there is to
/// read at the end of the stream, does not.
pub open spec fn ends_in_line_feed(line: Seq<char>) -> bool {
    line.len() > 0 && line.last() == '\n'
}

/// The outcome of a reply that `line` has closed with `code`.
pub open spec fn concluded(code: u32, line: Seq<char>, expected: Seq<u32>) -> FramedView {
    if !is_reply_code(code) {
        FramedView::Malformed(ErrorView::InvalidResponse(out_of_range_text(trimmed(line))))
    } else if expected.contains(code) {
        FramedView::Reply((code, trimmed(line)))
    } else {
        FramedView::Malformed(
            ErrorView::InvalidResponse(unexpected_text(expected, trimmed(line))),
        )
    }
}

/// What `line` does to a reply that has come as far as `state`.
///
/// The first line must hold five characters or more and begin with three
/// digits that give a code from 100 to 559. With a space behind them it is
/// the whole reply; with anything else it opens a reply of several lines. Of
/// the lines that follow, only one that begins with the same code and a
/// space counts: it closes the reply. Nothing else is asked of them, but
/// that they end in a line feed: a line that does not is the last of the
/// stream, and where it does not close the reply nothing will.
pub open spec fn framed(state: Framing, line: Seq<char>, expected: Seq<u32>) -> FramedView {
    match state {
        Framing::First => if line.len() < 5 {
            FramedView::Malformed(ErrorView::InvalidResponse(unreadable_text()))
        } else {
            match leading_code(line) {
                None => FramedView::Malformed(ErrorView::InvalidResponse(unparsable_text())),
                Some(code) => if line[3] == ' ' || !is_reply_code(code) {
                    concluded(code, line, expected)
                } else {
                    FramedView::More(Framing::Continued(code))
                },
            }
        },
        Framing::Continued(code) => if closes(line, code) {
            concluded(code, line, expected)
        } else if ends_in_line_feed(line) {
            FramedView::More(Framing::Continued(code))
        } else {
            FramedView::Malformed(ErrorView::Connection(unfinished_text()))
        },
    }
}

/// What a run of lines does to a reply: each line in turn, up to the one that
/// completes the reply or spoils it.
pub open spec fn framed_all(state: Framing, lines: Seq<Seq<char>>, expected: Seq<u32>) -> FramedView
    decreases lines.len(),
{
    if lines.len() == 0 {
        FramedView::More(state)
    } else {
        match framed(state, lines[0], expected) {
            FramedView::More(next) => framed_all(next, lines.drop_first(), expected),
            done => done,
        }
    }
}

/// A line of fewer than five characters in the first place is refused as
/// unreadable, whatever it holds: its characters are never read as a number.
pub proof fn short_line_is_refused(line: Seq<char>, expected: Seq<u32>)
    requires
        line.len() < 5,
    ensures
        framed(Framing::First, line, expected) == FramedView::Malformed(
            ErrorView::InvalidResponse(unreadable_text()),
        ),
{
}

/// A reply that is accepted bears a code from 100 to 559 that was expected,
/// however far the reply had come and whatever the line holds.
pub proof fn accepted_code_is_bounded(state: Framing, line: Seq<char>, expected: Seq<u32>)
    ensures
        framed(state, line, expected) matches FramedView::Reply(reply) ==> is_reply_code(reply.0)
            && expected.contains(reply.0) && reply.1 == trimmed(line),
{
}

/// Three digits that give no code from 100 to 559 are refused in the first
/// place, whether a space stands behind them or not.
pub proof fn code_out_of_range_is_refused(line: Seq<char>, expected: Seq<u32>)
    requires
        line.len() >= 5,
        leading_code(line) matches Some(code) && !is_reply_code(code),
    ensures
        framed(Framing::First, line, expected) == FramedView::Malformed(
            ErrorView::InvalidResponse(out_of_range_text(trimmed(line))),
        ),
{
}

/// No reply waits on a stream that has ended. What is read at the end of the
/// stream, the empty line or a line without its line feed, never leaves an
/// open reply waiting for another line: it closes the reply or fails it with
/// a connection error. In the first place the empty line is refused too.
pub proof fn end_of_stream_is_not_waited_on(code: u32, line: Seq<char>, expected: Seq<u32>)
    requires
        !ends_in_line_feed(line),
    ensures
        !(framed(Framing::Continued(code), line, expected) is More),
        !closes(line, code) ==> framed(Framing::Continued(code), line, expected)
            == FramedView::Malformed(ErrorView::Connection(unfinished_text())),
        line.len() == 0 ==> framed(Framing::First, line, expected) is Malformed,
{
}

/// The lines between the opening and the closing line of a reply are passed
/// over, whatever they hold.
pub proof fn free_text_is_passed_over(code: u32, lines: Seq<Seq<char>>, expected: Seq<u32>)
    requires
        forall|i: int| 0 <= i < lines.len() ==> !closes(#[trigger] lines[i], code),
        forall|i: int| 0 <= i < lines.len() ==> ends_in_line_feed(#[trigger] lines[i]),
    ensures
        framed_all(Framing::Continued(code), lines, expected) == FramedView::More(
            Framing::Continued(code),
        ),
    decreases lines.len(),
{
    if lines.len() > 0 {
        free_text_is_passed_over(code, lines.drop_first(), expected);
    }
}

/// A reply of several lines: where the fourth character of the first line is
/// not a space, lines are read until one begins with the first line's code
/// and a space. That line alone decides the outcome; the lines before it,
/// each a whole line with its line feed, are not read for a code.
pub proof fn reply_of_several_lines(
    first: Seq<char>,
    between: Seq<Seq<char>>,
    last: Seq<char>,
    expected: Seq<u32>,
)
    requires
        first.len() >= 5,
        leading_code(first) matches Some(code) && is_reply_code(code),
        first[3] != ' ',
        forall|i: int|
            0 <= i < between.len() ==> !closes(#[trigger] between[i], leading_code(first)->0),
        forall|i: int| 0 <= i < between.len() ==> ends_in_line_feed(#[trigger] between[i]),
        closes(last, leading_code(first)->0),
    ensures
        framed_all(Framing::First, seq![first] + between, expected) == FramedView::More(
            Framing::Continued(leading_code(first)->0),
        ),
        framed_all(Framing::First, (seq![first] + between).push(last), expected) == concluded(
            leading_code(first)->0,
            last,
            expected,
        ),
{
    let code = leading_code(first)->0;
    let opened = seq![first] + between;
    assert(opened.drop_first() == between);
    free_text_is_passed_over(code, between, expected);
    assert(opened.push(last).drop_first() == between.push(last));
    framed_all_by_parts(Framing::Continued(code), between, seq![last], expected);
    assert(between + seq![last] == between.push(last));
    assert(seq![last].drop_first() == Seq::<Seq<char>>::empty());
}

/// Lines read in two runs do what they do when read in one, as long as the
/// first run leaves the reply open.
pub proof fn framed_all_by_parts(
    state: Framing,
    head: Seq<Seq<char>>,
    tail: Seq<Seq<char>>,
    expected: Seq<u32>,
)
    requires
        framed_all(state, head, expected) is More,
    ensures
        framed_all(state, head + tail, expected) == framed_all(
            framed_all(state, head, expected)->More_0,
            tail,
            expected,
        ),
    decreases head.len(),
{
    if head.len() == 0 {
        assert(head + tail == tail);
    } else {
        assert((head + tail).drop_first() == head.drop_first() + tail);
        assert((head + tail)[0] == head[0]);
        match framed(state, head[0], expected) {
            FramedView::More(next) => {
                framed_all_by_parts(next, head.drop_first(), tail, expected);
            },
            _ => {},
        }
    }
}

/// A reply with a code from 100 to 559 is accepted exactly where its code is
/// one of those expected. A refusal carries the reply's closing line,
/// trimmed, and that line still begins with the three digits of the code.
pub proof fn code_decides(code: u32, line: Seq<char>, expected: Seq<u32>)
    requires
        closes(line, code),
        is_reply_code(code),
    ensures
        expected.contains(code) ==> framed(Framing::First, line, expected) == FramedView::Reply(
            (code, trimmed(line)),
        ),
        !expected.contains(code) ==> framed(Framing::First, line, expected)
            == FramedView::Malformed(
            ErrorView::InvalidResponse(unexpected_text(expected, trimmed(line))),
        ),
        framed(Framing::Continued(code), line, expected) == framed(Framing::First, line, expected),
        leading_code(trimmed(line)) == Some(code),
{
    assert(!is_space(line[0]) && !is_space(line[2]));
    trim_end_keeps(line, 3);
    assert(trimmed(line).take(3) == line.take(3));
    assert(trimmed(line)[0] == line.take(3)[0]);
    assert(trimmed(line)[1] == line.take(3)[1]);
    assert(trimmed(line)[2] == line.take(3)[2]);
}

/// Whether `code` is one of `expected`.
pub fn is_expected(expected: &[u32], code: u32) -> (b: bool)
    ensures
        b == expected@.contains(code),
{
    let mut i: usize = 0;
    while i < expected.len()
        invariant
            i <= expected.len(),
            forall|j: int| 0 <= j < i ==> expected@[j] != code,
        decreases expected.len() - i,
    {
        if expected[i] == code {
            return true;
        }
        i = i + 1;
    }
    false
}

/// The text of the error for a reply whose code is none of `expected`.
pub fn unexpected_message(expected: &[u32], text: &str) -> (m: String)
    ensures
        m@ == unexpected_text(expected@, text@),
{
    let mut m = String::from_str("Expected code [");
    let mut i: usize = 0;
    while i < expected.len()
        invariant
            i <= expected.len(),
            m@ == "Expected code ["@ + codes_joined(expected@.take(i as int)),
        decreases expected.len() - i,
    {
        let ghost before = m@;
        if i > 0 {
            m.append(", ");
        }
        push_decimal(&mut m, expected[i] as u64);
        proof {
            let head = expected@.take(i as int);
            let next = expected@.take(i + 1);
            assert(next.drop_last() == head);
            assert(next.last() == expected@[i as int]);
            if i == 0 {
                assert(codes_joined(head) == Seq::<char>::empty());
                assert(m@ == "Expected code ["@ + codes_joined(next));
            } else {
                assert(m@ == "Expected code ["@ + (codes_joined(head) + ", "@ + decimal_text(
                    expected@[i as int] as nat,
                )));
            }
        }
        i = i + 1;
    }
    assert(expected@.take(i as int) == expected@);
    m.append("], got response: ");
    m.append(text);
    m
}

/// The code that `line` begins with, if it begins with three digits.
fn code_of(line: &Vec<char>) -> (code: Option<u32>)
    ensures
        code == leading_code(line@),
{
    if line.len() < 3 {
        return None;
    }
    let a = line[0];
    let b = line[1];
    let c = line[2];
    if a >= '0' && a <= '9' && b >= '0' && b <= '9' && c >= '0' && c <= '9' {
        let x: u32 = a as u32 - '0' as u32;
        let y: u32 = b as u32 - '0' as u32;
        let z: u32 = c as u32 - '0' as u32;
        Some(x * 100 + y * 10 + z)
    } else {
        None
    }
}

/// The outcome of a reply that `line` has closed with `code`.
fn conclude(code: u32, line: &str, expected: &[u32]) -> (r: Framed)
    ensures
        r@ == concluded(code, line@, expected@),
{
    let text = trim(line);
    if code < 100 || code > 559 {
        Framed::Malformed(
            FtpError::InvalidResponse(
                String::from_str("error: reply code out of range: ").concat(text.as_str()),
            ),
        )
    } else if is_expected(expected, code) {
        Framed::Reply(Line(code, text))
    } else {
        Framed::Malformed(FtpError::InvalidResponse(unexpected_message(expected, text.as_str())))
    }
}

/// Takes the next line of a reply, line feed and all, and says what it does
/// to the reply: see [`framed`]. At the end of the stream the line is what
/// was left to read: the empty line where nothing was.
pub fn frame_line(state: Framing, line: &str, expected: &[u32]) -> (r: Framed)
    ensures
        r@ == framed(state, line@, expected@),
{
    let chars = chars_of(line);
    match state {
        Framing::First => {
            if chars.len() < 5 {
                return Framed::Malformed(
                    FtpError::InvalidResponse(String::from_str("error: could not read reply code")),
                );
            }
            match code_of(&chars) {
                None => Framed::Malformed(
                    FtpError::InvalidResponse(
                        String::from_str(
                            "error: could not parse reply code: invalid digit found in string",
                        ),
                    ),
                ),
                Some(code) => {
                    if chars[3] == ' ' || code < 100 || code > 559 {
                        conclude(code, line, expected)
                    } else {
                        Framed::More(Framing::Continued(code))
                    }
                },
            }
        },
        Framing::Continued(code) => {
            let closing = chars.len() >= 5 && chars[3] == ' ' && match code_of(&chars) {
                Some(found) => found == code,
                None => false,
            };
            if closing {
                conclude(code, line, expected)
            } else if chars.len() > 0 && chars[chars.len() - 1] == '\n' {
                Framed::More(Framing::Continued(code))
            } else {
                Framed::Malformed(
                    FtpError::ConnectionError(
                        String::from_str("connection closed before the end of the reply"),
                    ),
                )
            }
        },
    }
}

} // verus!
