//! What the replies to `PWD`, `PASV`, `MDTM` and `SIZE` carry, and the lines
//! of a directory listing.

use crate::datetime::DateTime;
use crate::pattern::{captures, regex_captures, MDTM_PATTERN, PASV_PATTERN, SIZE_PATTERN};
use crate::text::{
    chars_of,
    decimal_text,
    decimal_text_reads_back,
    decimal_value,
    first_index,
    is_decimal,
    last_index,
    parse_decimal,
    push_decimal,
    text_of,
};
use crate::types::{ErrorView, FtpError};
use vstd::prelude::*;
use vstd::string::StringExecFns;
use vstd::utf8::{decode_utf8, valid_utf8};

verus! {

/// Where the server listens for a data connection: an IPv4 host and a port.
#[derive(Debug, Clone, Copy, PartialEq, Eq)]
pub struct Endpoint {
    pub host: (u8, u8, u8, u8),
    pub port: u16,
}

impl Endpoint {
    /// The endpoint in dotted decimal, a colon, and the port.
    pub open spec fn text(self) -> Seq<char> {
        decimal_text(self.host.0 as nat) + seq!['.'] + decimal_text(self.host.1 as nat) + seq!['.']
            + decimal_text(self.host.2 as nat) + seq!['.'] + decimal_text(self.host.3 as nat)
            + seq![':'] + decimal_text(self.port as nat)
    }

    /// The endpoint in dotted decimal, a colon, and the port.
    pub fn to_string(&self) -> (s: String)
        ensures
            s@ == self.text(),
    {
        let mut s = String::new();
        push_decimal(&mut s, self.host.0 as u64);
        s.push('.');
        push_decimal(&mut s, self.host.1 as u64);
        s.push('.');
        push_decimal(&mut s, self.host.2 as u64);
        s.push('.');
        push_decimal(&mut s, self.host.3 as u64);
        s.push(':');
        push_decimal(&mut s, self.port as u64);
        assert(s@ =~= self.text());
        s
    }
}

/// The number that capture group `i` writes, if the group took part in the
/// match, is a decimal number and does not exceed `max`.
pub open spec fn group_value(groups: Seq<Option<Seq<char>>>, i: int, max: nat) -> Option<nat> {
    if 0 <= i < groups.len() && groups[i] is Some && is_decimal(groups[i]->0) && decimal_value(
        groups[i]->0,
    ) <= max {
        Some(decimal_value(groups[i]->0))
    } else {
        None
    }
}

/// Reads capture group `i` as a decimal number up to `max`.
pub fn group_number(groups: &Vec<Option<String>>, i: usize, max: u64) -> (n: Option<u64>)
    ensures
        n is Some <==> group_value(groups.deep_view(), i as int, max as nat) is Some,
        n is Some ==> n->0 == group_value(groups.deep_view(), i as int, max as nat)->0,
{
    if i >= groups.len() {
        return None;
    }
    assert(groups.deep_view()[i as int] == groups@[i as int].deep_view());
    match &groups[i] {
        Some(digits) => parse_decimal(digits.as_str(), max),
        None => None,
    }
}

/// The endpoint that the groups of [`PASV_PATTERN`] give: the whole match and
/// six numbers, each a byte. The first four are the host; the port is the
/// fifth times 256 plus the sixth.
pub open spec fn endpoint_of(groups: Seq<Option<Seq<char>>>) -> Option<Endpoint> {
    if groups.len() == 7 && group_value(groups, 1, 255) is Some && group_value(groups, 2, 255)
        is Some && group_value(groups, 3, 255) is Some && group_value(groups, 4, 255) is Some
        && group_value(groups, 5, 255) is Some && group_value(groups, 6, 255) is Some {
        Some(
            Endpoint {
                host: (
                    group_value(groups, 1, 255)->0 as u8,
                    group_value(groups, 2, 255)->0 as u8,
                    group_value(groups, 3, 255)->0 as u8,
                    group_value(groups, 4, 255)->0 as u8,
                ),
                port: (group_value(groups, 5, 255)->0 * 256 + group_value(groups, 6, 255)->0) as u16,
            },
        )
    } else {
        None
    }
}

/// The endpoint that the groups of [`PASV_PATTERN`] give, if each of the six
/// is a byte.
pub fn endpoint_from_groups(groups: &Vec<Option<String>>) -> (e: Option<Endpoint>)
    ensures
        e == endpoint_of(groups.deep_view()),
{
    if groups.len() != 7 {
        return None;
    }
    let h1 = group_number(groups, 1, 255);
    let h2 = group_number(groups, 2, 255);
    let h3 = group_number(groups, 3, 255);
    let h4 = group_number(groups, 4, 255);
    let p1 = group_number(groups, 5, 255);
    let p2 = group_number(groups, 6, 255);
    match (h1, h2, h3, h4, p1, p2) {
        (Some(a), Some(b), Some(c), Some(d), Some(msb), Some(lsb)) => Some(
            Endpoint {
                host: (a as u8, b as u8, c as u8, d as u8),
                port: (msb * 256 + lsb) as u16,
            },
        ),
        _ => None,
    }
}

/// Six bytes come back as they were written: where the six groups hold the
/// host bytes `h1` to `h4` and the halves `p1` and `p2` of the port in
/// decimal, the endpoint is the host `h1.h2.h3.h4` at the port `p1 * 256 +
/// p2`, whatever the whole match holds.
pub proof fn six_bytes_give_the_endpoint(
    whole: Option<Seq<char>>,
    h1: u8,
    h2: u8,
    h3: u8,
    h4: u8,
    p1: u8,
    p2: u8,
)
    ensures
        endpoint_of(
            seq![
                whole,
                Some(decimal_text(h1 as nat)),
                Some(decimal_text(h2 as nat)),
                Some(decimal_text(h3 as nat)),
                Some(decimal_text(h4 as nat)),
                Some(decimal_text(p1 as nat)),
                Some(decimal_text(p2 as nat)),
            ],
        ) == Some(Endpoint { host: (h1, h2, h3, h4), port: (p1 * 256 + p2) as u16 }),
        (Endpoint { host: (h1, h2, h3, h4), port: (p1 * 256 + p2) as u16 }).text() == decimal_text(
            h1 as nat,
        ) + seq!['.'] + decimal_text(h2 as nat) + seq!['.'] + decimal_text(h3 as nat) + seq!['.']
            + decimal_text(h4 as nat) + seq![':'] + decimal_text((p1 * 256 + p2) as nat),
{
    decimal_text_reads_back(h1 as nat);
    decimal_text_reads_back(h2 as nat);
    decimal_text_reads_back(h3 as nat);
    decimal_text_reads_back(h4 as nat);
    decimal_text_reads_back(p1 as nat);
    decimal_text_reads_back(p2 as nat);
}

/// What the error says of a `PASV` reply without an endpoint: the reply's
/// text behind a few words.
pub open spec fn invalid_pasv_text(text: Seq<char>) -> Seq<char> {
    "Invalid PASV response: "@ + text
}

/// What a `PASV` reply with this text gives: the endpoint in the first
/// parenthesised six numbers, or an error that carries the text.
pub open spec fn pasv_result(text: Seq<char>) -> Result<Endpoint, ErrorView> {
    match regex_captures(PASV_PATTERN@, text) {
        Some(groups) => match endpoint_of(groups) {
            Some(e) => Ok(e),
            None => Err(ErrorView::InvalidResponse(invalid_pasv_text(text))),
        },
        None => Err(ErrorView::InvalidResponse(invalid_pasv_text(text))),
    }
}

/// Reads the endpoint out of the text of a `PASV` reply.
pub fn parse_pasv(text: &str) -> (r: Result<Endpoint, FtpError>)
    ensures
        r is Ok <==> pasv_result(text@) is Ok,
        r matches Ok(e) ==> pasv_result(text@) == Ok::<Endpoint, ErrorView>(e),
        r matches Err(e) ==> pasv_result(text@) == Err::<Endpoint, ErrorView>(e@),
{
    let found = match captures(PASV_PATTERN, text) {
        Some(groups) => endpoint_from_groups(&groups),
        None => None,
    };
    match found {
        Some(e) => Ok(e),
        None => Err(
            FtpError::InvalidResponse(String::from_str("Invalid PASV response: ").concat(text)),
        ),
    }
}

/// The date and time that the groups of [`MDTM_PATTERN`] give: the whole
/// match and six numbers.
pub open spec fn time_of(groups: Seq<Option<Seq<char>>>) -> Option<DateTime> {
    let max = u32::MAX as nat;
    if groups.len() == 7 && group_value(groups, 1, max) is Some && group_value(groups, 2, max)
        is Some && group_value(groups, 3, max) is Some && group_value(groups, 4, max) is Some
        && group_value(groups, 5, max) is Some && group_value(groups, 6, max) is Some {
        Some(
            DateTime {
                year: group_value(groups, 1, max)->0 as u32,
                month: group_value(groups, 2, max)->0 as u32,
                day: group_value(groups, 3, max)->0 as u32,
                hour: group_value(groups, 4, max)->0 as u32,
                minute: group_value(groups, 5, max)->0 as u32,
                second: group_value(groups, 6, max)->0 as u32,
            },
        )
    } else {
        None
    }
}

/// The date and time that the groups of [`MDTM_PATTERN`] give, if each of the
/// six is a number.
pub fn time_from_groups(groups: &Vec<Option<String>>) -> (t: Option<DateTime>)
    ensures
        t == time_of(groups.deep_view()),
{
    if groups.len() != 7 {
        return None;
    }
    let max: u64 = u32::MAX as u64;
    let year = group_number(groups, 1, max);
    let month = group_number(groups, 2, max);
    let day = group_number(groups, 3, max);
    let hour = group_number(groups, 4, max);
    let minute = group_number(groups, 5, max);
    let second = group_number(groups, 6, max);
    match (year, month, day, hour, minute, second) {
        (Some(y), Some(mo), Some(d), Some(h), Some(mi), Some(s)) => Some(
            DateTime {
                year: y as u32,
                month: mo as u32,
                day: d as u32,
                hour: h as u32,
                minute: mi as u32,
                second: s as u32,
            },
        ),
        _ => None,
    }
}

/// What the error says of an `MDTM` reply whose digits give no time.
pub open spec fn invalid_mdtm_text(text: Seq<char>) -> Seq<char> {
    "Invalid MDTM response: "@ + text
}

/// What an `MDTM` reply with this text gives: the time in its first run of
/// fourteen digits, nothing where there is no such run, or an error where
/// the digits give no time.
pub open spec fn mdtm_result(text: Seq<char>) -> Result<Option<DateTime>, ErrorView> {
    match regex_captures(MDTM_PATTERN@, text) {
        Some(groups) => match time_of(groups) {
            Some(t) => Ok(Some(t)),
            None => Err(ErrorView::InvalidResponse(invalid_mdtm_text(text))),
        },
        None => Ok(None),
    }
}

/// Reads the modification time out of the text of an `MDTM` reply.
pub fn parse_mdtm(text: &str) -> (r: Result<Option<DateTime>, FtpError>)
    ensures
        r is Ok <==> mdtm_result(text@) is Ok,
        r matches Ok(t) ==> mdtm_result(text@) == Ok::<Option<DateTime>, ErrorView>(t),
        r matches Err(e) ==> mdtm_result(text@) == Err::<Option<DateTime>, ErrorView>(e@),
{
    match captures(MDTM_PATTERN, text) {
        Some(groups) => match time_from_groups(&groups) {
            Some(t) => Ok(Some(t)),
            None => Err(
                FtpError::InvalidResponse(String::from_str("Invalid MDTM response: ").concat(text)),
            ),
        },
        None => Ok(None),
    }
}

/// The size that the groups of [`SIZE_PATTERN`] give: the whole match and one
/// number.
pub open spec fn size_of(groups: Seq<Option<Seq<char>>>) -> Option<usize> {
    if groups.len() == 2 && group_value(groups, 1, usize::MAX as nat) is Some {
        Some(group_value(groups, 1, usize::MAX as nat)->0 as usize)
    } else {
        None
    }
}

/// The size that the groups of [`SIZE_PATTERN`] give, if the one group is a
/// number that fits.
pub fn size_from_groups(groups: &Vec<Option<String>>) -> (n: Option<usize>)
    ensures
        n == size_of(groups.deep_view()),
{
    if groups.len() != 2 {
        return None;
    }
    match group_number(groups, 1, usize::MAX as u64) {
        Some(n) => Some(n as usize),
        None => None,
    }
}

/// What the error says of a `SIZE` reply whose digits give no size.
pub open spec fn invalid_size_text(text: Seq<char>) -> Seq<char> {
    "Invalid SIZE response: "@ + text
}

/// What a `SIZE` reply with this text gives: the number it ends with,
/// nothing where it ends with none, or an error where the number does not
/// fit.
pub open spec fn size_result(text: Seq<char>) -> Result<Option<usize>, ErrorView> {
    match regex_captures(SIZE_PATTERN@, text) {
        Some(groups) => match size_of(groups) {
            Some(n) => Ok(Some(n)),
            None => Err(ErrorView::InvalidResponse(invalid_size_text(text))),
        },
        None => Ok(None),
    }
}

/// Reads the size out of the text of a `SIZE` reply.
pub fn parse_size(text: &str) -> (r: Result<Option<usize>, FtpError>)
    ensures
        r is Ok <==> size_result(text@) is Ok,
        r matches Ok(n) ==> size_result(text@) == Ok::<Option<usize>, ErrorView>(n),
        r matches Err(e) ==> size_result(text@) == Err::<Option<usize>, ErrorView>(e@),
{
    match captures(SIZE_PATTERN, text) {
        Some(groups) => match size_from_groups(&groups) {
            Some(n) => Ok(Some(n)),
            None => Err(
                FtpError::InvalidResponse(String::from_str("Invalid SIZE response: ").concat(text)),
            ),
        },
        None => Ok(None),
    }
}

/// The path between the first and the last double quote of `text`, where the
/// first stands before the last.
pub open spec fn quoted_path(text: Seq<char>) -> Option<Seq<char>> {
    let begin = first_index(text, '"');
    let end = last_index(text, '"');
    if begin < end {
        Some(text.subrange(begin + 1, end))
    } else {
        None
    }
}

/// What the error says of a `PWD` reply without a quoted path.
pub open spec fn invalid_pwd_text(text: Seq<char>) -> Seq<char> {
    "Invalid PWD Response: "@ + text
}

/// What a `PWD` reply with this text gives: its quoted path, or an error
/// that carries the text.
pub open spec fn pwd_result(text: Seq<char>) -> Result<Seq<char>, ErrorView> {
    match quoted_path(text) {
        Some(path) => Ok(path),
        None => Err(ErrorView::InvalidResponse(invalid_pwd_text(text))),
    }
}

/// Both indices bound the text, and a quote stands at each that lies in it.
pub proof fn quote_indices_are_quotes(text: Seq<char>)
    ensures
        0 <= first_index(text, '"') <= text.len(),
        -1 <= last_index(text, '"') < text.len(),
        first_index(text, '"') < text.len() ==> text[first_index(text, '"')] == '"',
        last_index(text, '"') >= 0 ==> text[last_index(text, '"')] == '"',
        forall|i: int| 0 <= i < first_index(text, '"') ==> text[i] != '"',
        forall|i: int| last_index(text, '"') < i < text.len() ==> text[i] != '"',
    decreases text.len(),
{
    if text.len() > 0 {
        quote_indices_are_quotes(text.drop_first());
        quote_indices_are_quotes(text.drop_last());
        if text[0] != '"' {
            let k = first_index(text.drop_first(), '"');
            assert forall|i: int| 0 <= i < first_index(text, '"') implies text[i] != '"' by {
                if i > 0 {
                    assert(text.drop_first()[i - 1] == text[i]);
                }
            }
            if k < text.drop_first().len() {
                assert(text.drop_first()[k] == text[k + 1]);
            }
        }
        if text.last() != '"' {
            let k = last_index(text.drop_last(), '"');
            assert forall|i: int| last_index(text, '"') < i < text.len() implies text[i] != '"' by {
                if i < text.len() - 1 {
                    assert(text.drop_last()[i] == text[i]);
                }
            }
            if k >= 0 {
                assert(text.drop_last()[k] == text[k]);
            }
        }
    }
}

/// A text gives a path exactly where it holds two double quotes or more: the
/// path is then what stands between the first and the last of them. A text
/// with no quote, or with one only, gives none.
pub proof fn path_needs_two_quotes(text: Seq<char>)
    ensures
        quoted_path(text) is Some <==> exists|i: int, j: int|
            0 <= i < j < text.len() && text[i] == '"' && text[j] == '"',
        quoted_path(text) matches Some(path) ==> {
            let begin = first_index(text, '"');
            let end = last_index(text, '"');
            &&& 0 <= begin < end < text.len()
            &&& text[begin] == '"'
            &&& text[end] == '"'
            &&& path == text.subrange(begin + 1, end)
            &&& forall|i: int| 0 <= i < begin ==> text[i] != '"'
            &&& forall|i: int| end < i < text.len() ==> text[i] != '"'
        },
{
    quote_indices_are_quotes(text);
    let begin = first_index(text, '"');
    let end = last_index(text, '"');
    if begin < end {
        assert(0 <= begin < end < text.len() && text[begin] == '"' && text[end] == '"');
    }
}

/// Reads the path out of the text of a `PWD` reply.
pub fn parse_pwd(text: &str) -> (r: Result<String, FtpError>)
    ensures
        r is Ok <==> pwd_result(text@) is Ok,
        r matches Ok(p) ==> pwd_result(text@) == Ok::<Seq<char>, ErrorView>(p@),
        r matches Err(e) ==> pwd_result(text@) == Err::<Seq<char>, ErrorView>(e@),
{
    let v = chars_of(text);
    let mut begin: usize = 0;
    assert(v@.skip(0) == v@);
    while begin < v.len() && v[begin] != '"'
        invariant
            begin <= v.len(),
            first_index(v@, '"') == begin + first_index(v@.skip(begin as int), '"'),
        decreases v.len() - begin,
    {
        assert(v@.skip(begin as int).drop_first() == v@.skip(begin + 1));
        begin = begin + 1;
    }
    let mut end: usize = v.len();
    assert(v@.take(end as int) == v@);
    while end > 0 && v[end - 1] != '"'
        invariant
            end <= v.len(),
            last_index(v@, '"') == last_index(v@.take(end as int), '"'),
        decreases end,
    {
        assert(v@.take(end as int).drop_last() == v@.take(end - 1));
        end = end - 1;
    }
    // `begin` is the first quote's index (or the length), `end` the last one's plus one (or 0)
    if end > 0 && begin < end - 1 {
        Ok(text_of(&v, begin + 1, end - 1))
    } else {
        Err(FtpError::InvalidResponse(String::from_str("Invalid PWD Response: ").concat(text)))
    }
}

/// The lines of `s`, where `current` holds what has been read of the line at
/// hand: a line ends at a carriage return with a line feed behind it or at
/// the end of the text, and a line without characters does not count.
pub open spec fn split_crlf(s: Seq<char>, current: Seq<char>) -> Seq<Seq<char>>
    decreases s.len(),
{
    if s.len() == 0 {
        kept(current)
    } else if s.len() >= 2 && s[0] == '\r' && s[1] == '\n' {
        kept(current) + split_crlf(s.skip(2), Seq::empty())
    } else {
        split_crlf(s.drop_first(), current.push(s[0]))
    }
}

/// The line, unless it is empty.
pub open spec fn kept(line: Seq<char>) -> Seq<Seq<char>> {
    if line.len() > 0 {
        seq![line]
    } else {
        Seq::empty()
    }
}

/// The lines of a listing: the text cut at each carriage return with a line
/// feed behind it, in order, without the empty ones.
pub open spec fn crlf_lines(text: Seq<char>) -> Seq<Seq<char>> {
    split_crlf(text, Seq::empty())
}

/// What the error says of a listing that is no text.
pub open spec fn invalid_lines_text() -> Seq<char> {
    "Invalid lines in response"@
}

/// What the bytes of a listing give: its lines, or an error where the bytes
/// are no UTF-8 text.
pub open spec fn listing_result(bytes: Seq<u8>) -> Result<Seq<Seq<char>>, ErrorView> {
    if valid_utf8(bytes) {
        Ok(crlf_lines(decode_utf8(bytes)))
    } else {
        Err(ErrorView::InvalidResponse(invalid_lines_text()))
    }
}

/// `String::from_utf8`: the bytes as text where they are valid UTF-8, and
/// nothing where they are not.
#[verifier::external_body]
fn text_from_utf8(bytes: Vec<u8>) -> (text: Option<String>)
    ensures
        text is Some <==> valid_utf8(bytes@),
        text is Some ==> text->0@ == decode_utf8(bytes@),
{
    String::from_utf8(bytes).ok()
}

/// The lines of a text: see [`crlf_lines`].
pub fn split_lines(text: &str) -> (lines: Vec<String>)
    ensures
        lines.deep_view() == crlf_lines(text@),
{
    let v = chars_of(text);
    let mut lines: Vec<String> = Vec::new();
    let mut start: usize = 0;
    let mut i: usize = 0;
    assert(v@.skip(0) == v@);
    assert(v@.subrange(0, 0) == Seq::<char>::empty());
    assert(lines.deep_view() == Seq::<Seq<char>>::empty());
    while i < v.len()
        invariant
            v@ == text@,
            start <= i <= v.len(),
            crlf_lines(text@) == lines.deep_view() + split_crlf(
                v@.skip(i as int),
                v@.subrange(start as int, i as int),
            ),
        decreases v.len() - i,
    {
        let ghost rest = v@.skip(i as int);
        let ghost current = v@.subrange(start as int, i as int);
        if v[i] == '\r' && i + 1 < v.len() && v[i + 1] == '\n' {
            assert(rest.skip(2) == v@.skip(i + 2));
            if i > start {
                let line = text_of(&v, start, i);
                let ghost before = lines.deep_view();
                lines.push(line);
                assert(lines.deep_view() == before + seq![current]);
            }
            i = i + 2;
            start = i;
            assert(v@.subrange(start as int, i as int) == Seq::<char>::empty());
        } else {
            assert(rest.drop_first() == v@.skip(i + 1));
            assert(current.push(rest[0]) == v@.subrange(start as int, i + 1));
            i = i + 1;
        }
    }
    assert(v@.skip(i as int).len() == 0);
    if i > start {
        let line = text_of(&v, start, i);
        let ghost before = lines.deep_view();
        lines.push(line);
        assert(lines.deep_view() == before + seq![v@.subrange(start as int, i as int)]);
    }
    lines
}

/// Reads the bytes of a listing as its lines.
pub fn parse_listing(bytes: Vec<u8>) -> (r: Result<Vec<String>, FtpError>)
    ensures
        r is Ok <==> listing_result(bytes@) is Ok,
        r matches Ok(lines) ==> listing_result(bytes@) == Ok::<Seq<Seq<char>>, ErrorView>(
            lines.deep_view(),
        ),
        r matches Err(e) ==> listing_result(bytes@) == Err::<Seq<Seq<char>>, ErrorView>(e@),
{
    match text_from_utf8(bytes) {
        Some(text) => Ok(split_lines(text.as_str())),
        None => Err(FtpError::InvalidResponse(String::from_str("Invalid lines in response"))),
    }
}

} // verus!
