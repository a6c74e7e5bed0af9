use ftp::reply::{frame_line, is_expected, unexpected_message, Framed, Framing};
use ftp::text::{parse_decimal, trim};
use ftp::types::FtpError;

/// Feeds the lines of `text` one by one, as they would come from the control
/// connection, and returns what the last line that was needed made of the
/// reply, with the number of lines taken.
fn feed(text: &str, expected: &[u32]) -> (Framed, usize) {
    let mut state = Framing::First;
    let mut taken = 0;
    for line in text.split_inclusive('\n') {
        taken += 1;
        match frame_line(state, line, expected) {
            Framed::More(next) => state = next,
            done => return (done, taken),
        }
    }
    (Framed::More(state), taken)
}

fn code_and_text(framed: Framed) -> (u32, String) {
    match framed {
        Framed::Reply(line) => (line.0, line.1),
        other => panic!("no reply: {:?}", other),
    }
}

fn invalid_response(framed: Framed) -> String {
    match framed {
        Framed::Malformed(FtpError::InvalidResponse(text)) => text,
        other => panic!("no invalid response: {:?}", other),
    }
}

#[test]
fn reply_of_one_line() {
    let (framed, taken) = feed("220 (vsFTPd 3.0.3)\r\n", &[220]);
    assert_eq!(taken, 1);
    assert_eq!(code_and_text(framed), (220, "220 (vsFTPd 3.0.3)".to_owned()));
}

#[test]
fn reply_of_three_lines_is_one_reply() {
    let (framed, taken) = feed("211-Features:\r\n PASV\r\n211 End\r\n", &[211]);
    assert_eq!(taken, 3);
    assert_eq!(code_and_text(framed), (211, "211 End".to_owned()));
}

#[test]
fn lines_between_are_not_read_for_a_code() {
    let text = "230-Welcome\r\n550 this is free text\r\n\r\n23\r\n230-more\r\n2300 no\r\n230 Done\r\n";
    let (framed, taken) = feed(text, &[230]);
    assert_eq!(taken, 7);
    assert_eq!(code_and_text(framed), (230, "230 Done".to_owned()));
}

#[test]
fn reply_stays_open_until_its_closing_line() {
    let (framed, taken) = feed("211-Features:\r\n PASV\r\n", &[211]);
    assert_eq!(taken, 2);
    assert!(matches!(framed, Framed::More(Framing::Continued(211))));
}

#[test]
fn line_of_code_alone_opens_a_reply() {
    // five characters, but the fourth is no space
    assert!(matches!(
        frame_line(Framing::First, "220\r\n", &[220]),
        Framed::More(Framing::Continued(220))
    ));
    assert!(matches!(
        frame_line(Framing::First, "220-\r\n", &[220]),
        Framed::More(Framing::Continued(220))
    ));
}

#[test]
fn closing_line_needs_five_characters() {
    // with its line feed the line closes the reply
    let framed = frame_line(Framing::Continued(220), "220 \n", &[220]);
    assert_eq!(code_and_text(framed), (220, "220".to_owned()));
    // a whole line of four characters is free text
    assert!(matches!(
        frame_line(Framing::Continued(220), "220\n", &[220]),
        Framed::More(Framing::Continued(220))
    ));
}

fn connection_error(framed: Framed) -> String {
    match framed {
        Framed::Malformed(FtpError::ConnectionError(text)) => text,
        other => panic!("no connection error: {:?}", other),
    }
}

#[test]
fn end_of_stream_fails_an_open_reply() {
    // the terminal line never arrives: the read at the end of the stream gives the empty line
    let (framed, taken) = feed("211-Features:\r\n PASV\r\n", &[211]);
    assert_eq!(taken, 2);
    let state = match framed {
        Framed::More(state) => state,
        other => panic!("reply not open: {:?}", other),
    };
    assert_eq!(
        connection_error(frame_line(state, "", &[211])),
        "connection closed before the end of the reply"
    );
}

#[test]
fn line_without_its_line_feed_is_the_last_of_the_stream() {
    for line in ["220 ", "220", " PASV", "221 other reply", "22", "\r"] {
        assert_eq!(
            connection_error(frame_line(Framing::Continued(220), line, &[220])),
            "connection closed before the end of the reply"
        );
    }
    // where it closes the reply, the reply is complete
    let framed = frame_line(Framing::Continued(220), "220 done", &[220]);
    assert_eq!(code_and_text(framed), (220, "220 done".to_owned()));
    // in the first place a reply of one line needs no line feed either
    let framed = frame_line(Framing::First, "220 ready", &[220]);
    assert_eq!(code_and_text(framed), (220, "220 ready".to_owned()));
}

#[test]
fn end_of_stream_in_the_first_place_is_a_short_line() {
    assert_eq!(
        invalid_response(frame_line(Framing::First, "", &[220])),
        "error: could not read reply code"
    );
}

#[test]
fn accepts_each_expected_code() {
    let (framed, _) = feed("250 Requested file action okay\r\n", &[226, 250]);
    assert_eq!(code_and_text(framed), (250, "250 Requested file action okay".to_owned()));
    let (framed, _) = feed("226 Closing data connection\r\n", &[226, 250]);
    assert_eq!(code_and_text(framed), (226, "226 Closing data connection".to_owned()));
}

#[test]
fn refuses_a_code_that_is_not_expected() {
    let (framed, _) = feed("550 Permission denied\r\n", &[226, 250]);
    assert_eq!(
        invalid_response(framed),
        "Expected code [226, 250], got response: 550 Permission denied"
    );
}

#[test]
fn refuses_a_reply_of_several_lines_by_its_code() {
    let (framed, taken) = feed("550-No\r\nreally not\r\n550 Denied\r\n", &[226, 250]);
    assert_eq!(taken, 3);
    assert_eq!(invalid_response(framed), "Expected code [226, 250], got response: 550 Denied");
}

#[test]
fn refuses_everything_where_nothing_is_expected() {
    let (framed, _) = feed("200 OK\r\n", &[]);
    assert_eq!(invalid_response(framed), "Expected code [], got response: 200 OK");
}

#[test]
fn short_line_is_malformed() {
    let (framed, taken) = feed("22\r\n", &[220]);
    assert_eq!(taken, 1);
    assert_eq!(invalid_response(framed), "error: could not read reply code");
    for line in ["", "\n", "2", "220", "220 ", "ab\r\n", "\r\n"] {
        assert_eq!(
            invalid_response(frame_line(Framing::First, line, &[220])),
            "error: could not read reply code"
        );
    }
}

#[test]
fn line_without_a_code_is_malformed() {
    for line in ["abc def\r\n", "2x0 ready\r\n", " 220 ready\r\n", "+12 ready\r\n", "22\u{0660} ready\r\n"] {
        assert_eq!(
            invalid_response(frame_line(Framing::First, line, &[220, 12])),
            "error: could not parse reply code: invalid digit found in string"
        );
    }
}

#[test]
fn code_below_100_or_above_559_is_refused() {
    for (line, codes) in [
        ("099 x\r\n", [99u32]),
        ("007 license\r\n", [7]),
        ("000 nothing\r\n", [0]),
        ("560 too far\r\n", [560]),
        ("999 far out\r\n", [999]),
    ] {
        assert_eq!(
            invalid_response(frame_line(Framing::First, line, &codes)),
            format!("error: reply code out of range: {}", line.trim())
        );
    }
    // such a code opens no reply of several lines either
    assert_eq!(
        invalid_response(frame_line(Framing::First, "099-more to come\r\n", &[99])),
        "error: reply code out of range: 099-more to come"
    );
    assert_eq!(
        invalid_response(frame_line(Framing::First, "600\r\n", &[600])),
        "error: reply code out of range: 600"
    );
    // nor does it close one
    assert_eq!(
        invalid_response(frame_line(Framing::Continued(99), "099 end\r\n", &[99])),
        "error: reply code out of range: 099 end"
    );
}

#[test]
fn codes_at_the_bounds_are_taken() {
    let framed = frame_line(Framing::First, "100 first\r\n", &[100]);
    assert_eq!(code_and_text(framed), (100, "100 first".to_owned()));
    let framed = frame_line(Framing::First, "559 last\r\n", &[559]);
    assert_eq!(code_and_text(framed), (559, "559 last".to_owned()));
    assert!(matches!(
        frame_line(Framing::First, "559-last\r\n", &[559]),
        Framed::More(Framing::Continued(559))
    ));
    assert_eq!(
        invalid_response(frame_line(Framing::First, "559 last\r\n", &[100])),
        "Expected code [100], got response: 559 last"
    );
}

#[test]
fn text_of_a_reply_is_trimmed() {
    let framed = frame_line(Framing::First, "200 \t ok \u{a0}\u{3000}\r\n", &[200]);
    assert_eq!(code_and_text(framed), (200, "200 \t ok".to_owned()));
}

#[test]
fn characters_count_not_bytes() {
    // four characters of which one takes two bytes
    assert_eq!(
        invalid_response(frame_line(Framing::First, "22\u{e9}\n", &[220])),
        "error: could not read reply code"
    );
    let framed = frame_line(Framing::First, "220 caf\u{e9}\r\n", &[220]);
    assert_eq!(code_and_text(framed), (220, "220 caf\u{e9}".to_owned()));
}

#[test]
fn is_expected_looks_at_every_code() {
    assert!(is_expected(&[150, 125], 150));
    assert!(is_expected(&[150, 125], 125));
    assert!(!is_expected(&[150, 125], 226));
    assert!(!is_expected(&[], 0));
}

#[test]
fn unexpected_message_lists_the_codes() {
    assert_eq!(unexpected_message(&[230], "530 no"), "Expected code [230], got response: 530 no");
    assert_eq!(
        unexpected_message(&[0, 10, 4294967295], ""),
        "Expected code [0, 10, 4294967295], got response: "
    );
}

#[test]
fn trim_takes_white_space_off_both_ends() {
    assert_eq!(trim("  a b \r\n"), "a b");
    assert_eq!(trim("\u{2003}x\u{85}"), "x");
    assert_eq!(trim(" \t\r\n"), "");
    assert_eq!(trim(""), "");
    assert_eq!(trim("none"), "none");
    assert_eq!(trim("\u{200b}x"), "\u{200b}x");
    for text in ["  a b \r\n", "\u{1680}\u{2028}q\u{2029}\u{202f}\u{205f}", "\u{b}\u{c}z\u{1c}"] {
        assert_eq!(trim(text), text.trim());
    }
}

#[test]
fn parse_decimal_reads_digits_only() {
    assert_eq!(parse_decimal("0", 255), Some(0));
    assert_eq!(parse_decimal("255", 255), Some(255));
    assert_eq!(parse_decimal("256", 255), None);
    assert_eq!(parse_decimal("007", 255), Some(7));
    assert_eq!(parse_decimal("0000000000000000000000255", 255), Some(255));
    assert_eq!(parse_decimal("", 255), None);
    assert_eq!(parse_decimal("+1", 255), None);
    assert_eq!(parse_decimal("-1", 255), None);
    assert_eq!(parse_decimal("1 ", 255), None);
    assert_eq!(parse_decimal("\u{0661}", 255), None);
    assert_eq!(parse_decimal("18446744073709551615", u64::MAX), Some(u64::MAX));
    assert_eq!(parse_decimal("18446744073709551616", u64::MAX), None);
    assert_eq!(parse_decimal("99999999999999999999999", u64::MAX), None);
}
